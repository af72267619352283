//! Value interpretation: pairing a schema with a byte window into live
//! memory and exposing typed, read-only accessors over that memory.
//!
//! A value node owns nothing beyond two borrows — the schema and the byte
//! window — and is constructed fresh per access, never mutated.

use vstd::prelude::*;

pub mod array;
pub mod cursed_slice_impl;
pub mod enumeration;
pub mod field;
pub mod structure;
pub mod variant;

use crate::debug_info::Store;
use crate::error::{Attribute, Error};
use crate::schema;
use crate::schema::{classify_result, Shape, Type};

verus! {

/// A primitive scalar value: its schema and its bytes.
#[derive(Clone, Copy)]
pub struct Base<'value, 'dwarf> {
    pub schema: schema::Base<'dwarf>,
    pub value: &'value [u8],
}

/// A raw pointer value: its schema and the pointer's own bytes.
#[derive(Clone, Copy)]
pub struct Pointer<'value, 'dwarf> {
    pub schema: schema::Pointer<'dwarf>,
    pub value: &'value [u8],
}

/// A borrowed contiguous view, seen through its own (data pointer, length)
/// structure bytes.
#[derive(Clone, Copy)]
pub struct Slice<'value, 'dwarf> {
    pub schema: schema::slice::Slice<'dwarf>,
    pub value: &'value [u8],
}

/// A borrowed text view, seen through its own (data pointer, length)
/// structure bytes.
#[derive(Clone, Copy)]
pub struct Str<'value, 'dwarf> {
    pub schema: schema::str_impl::str<'dwarf>,
    pub value: &'value [u8],
}

/// A typed, navigable view over a byte window: one variant per shape.
#[derive(Clone, Copy)]
pub enum Value<'value, 'dwarf> {
    Base(Base<'value, 'dwarf>),
    MutPtr(Pointer<'value, 'dwarf>),
    Structure(structure::Struct<'value, 'dwarf>),
    Slice(Slice<'value, 'dwarf>),
    Str(Str<'value, 'dwarf>),
    Array(array::Array<'value, 'dwarf>),
    Enumeration(enumeration::Enum<'value, 'dwarf>),
}

/// What constructing an array value over `w` from the entry at `id` must
/// yield: the window truncated to count times element size, or the exact
/// error. The multiplication is checked, and a window shorter than the
/// product is rejected.
pub open spec fn array_value_outcome(store: Store, id: int, w: Seq<u8>) -> Result<Seq<u8>, Error> {
    let e = store.at(id);
    match e.element_count {
        None => Err(Error::MissingAttribute { attr: Attribute::ElementCount }),
        Some(n) => match e.element_type {
            None => Err(Error::MissingAttribute { attr: Attribute::DeclaredType }),
            Some(t) => match classify_result(store, t as int) {
                Err(err) => Err(err),
                Ok(_) => match store.at(t as int).byte_size {
                    None => Err(Error::MissingAttribute { attr: Attribute::ByteSize }),
                    Some(es) => if n * es > u64::MAX {
                        Err(Error::SizeOverflow)
                    } else if n * es > w.len() {
                        Err(Error::WindowTooShort)
                    } else {
                        Ok(w.subrange(0, (n * es) as int))
                    },
                },
            },
        },
    }
}

/// What constructing a sum-type value over `w` from the entry at `id` must
/// yield: the window truncated to the declared total size, or the exact
/// error.
pub open spec fn enum_value_outcome(store: Store, id: int, w: Seq<u8>) -> Result<Seq<u8>, Error> {
    let e = store.at(id);
    match e.byte_size {
        None => Err(Error::MissingAttribute { attr: Attribute::ByteSize }),
        Some(s) => if s > w.len() {
            Err(Error::WindowTooShort)
        } else {
            Ok(w.subrange(0, s as int))
        },
    }
}

/// The window a value over `w` must hold, by shape: arrays and sum types
/// truncate (and may fail); every other shape takes the window as given.
pub open spec fn with_type_outcome(store: Store, id: int, shape: Shape, w: Seq<u8>) -> Result<
    Seq<u8>,
    Error,
> {
    match shape {
        Shape::Array => array_value_outcome(store, id, w),
        Shape::Enumeration => enum_value_outcome(store, id, w),
        _ => Ok(w),
    }
}

/// What wrapping a window `w` for the type description `t` must yield:
/// a value of exactly that type over the shape's outcome window, or
/// exactly the error the outcome gives.
pub open spec fn value_result_matches<'value, 'dwarf>(
    r: Result<Value<'value, 'dwarf>, Error>,
    t: Type<'dwarf>,
    w: Seq<u8>,
) -> bool {
    match with_type_outcome(t.store_of(), t.entry_of(), t.shape(), w) {
        Ok(win) => r matches Ok(v) && v.of_type(t) && v.window() == win,
        Err(e) => r == Err::<Value<'value, 'dwarf>, Error>(e),
    }
}

impl<'value, 'dwarf> Value<'value, 'dwarf> {
    /// The bytes this value is a view over.
    pub open spec fn window(self) -> Seq<u8> {
        match self {
            Value::Base(v) => v.value@,
            Value::MutPtr(v) => v.value@,
            Value::Structure(v) => v.value@,
            Value::Slice(v) => v.value@,
            Value::Str(v) => v.value@,
            Value::Array(v) => v.value@,
            Value::Enumeration(v) => v.value@,
        }
    }

    /// The shape of the schema behind this value.
    pub open spec fn shape(self) -> Shape {
        match self {
            Value::Base(_) => Shape::Base,
            Value::MutPtr(_) => Shape::MutPtr,
            Value::Structure(_) => Shape::Structure,
            Value::Slice(_) => Shape::Slice,
            Value::Str(_) => Shape::Str,
            Value::Array(_) => Shape::Array,
            Value::Enumeration(_) => Shape::Enumeration,
        }
    }

    /// The store the schema behind this value was resolved against.
    pub open spec fn store_of(self) -> Store {
        match self {
            Value::Base(v) => *v.schema.store,
            Value::MutPtr(v) => *v.schema.store,
            Value::Structure(v) => *v.schema.store,
            Value::Slice(v) => *v.schema.schema.store,
            Value::Str(v) => *v.schema.schema.store,
            Value::Array(v) => *v.schema.store,
            Value::Enumeration(v) => *v.schema.store,
        }
    }

    /// The entry the schema behind this value was resolved from.
    pub open spec fn entry_of(self) -> int {
        match self {
            Value::Base(v) => v.schema.entry as int,
            Value::MutPtr(v) => v.schema.entry as int,
            Value::Structure(v) => v.schema.entry as int,
            Value::Slice(v) => v.schema.schema.entry as int,
            Value::Str(v) => v.schema.schema.entry as int,
            Value::Array(v) => v.schema.entry as int,
            Value::Enumeration(v) => v.schema.entry as int,
        }
    }

    /// Whether the schema behind this value is well-formed.
    pub open spec fn wf(self) -> bool {
        match self {
            Value::Base(v) => v.schema.wf(),
            Value::MutPtr(v) => v.schema.wf(),
            Value::Structure(v) => v.schema.wf(),
            Value::Slice(v) => v.schema.wf(),
            Value::Str(v) => v.schema.wf(),
            Value::Array(v) => v.schema.wf(),
            Value::Enumeration(v) => v.schema.wf(),
        }
    }

    /// Whether this value carries exactly the given type description.
    pub open spec fn of_type(self, t: Type<'dwarf>) -> bool {
        match self {
            Value::Base(v) => t matches Type::Base(s) && v.schema == s,
            Value::MutPtr(v) => t matches Type::MutPtr(s) && v.schema == s,
            Value::Structure(v) => t matches Type::Structure(s) && v.schema == s,
            Value::Slice(v) => t matches Type::Slice(s) && v.schema == s,
            Value::Str(v) => t matches Type::Str(s) && v.schema == s,
            Value::Array(v) => t matches Type::Array(s) && v.schema == s,
            Value::Enumeration(v) => t matches Type::Enumeration(s) && v.schema == s,
        }
    }

    /// The bytes this value is a view over, for callers that compare
    /// sub-windows.
    pub fn window_bytes(&self) -> (r: &'value [u8])
        ensures
            r@ == self.window(),
    {
        match self {
            Value::Base(v) => v.value,
            Value::MutPtr(v) => v.value,
            Value::Structure(v) => v.value,
            Value::Slice(v) => v.value,
            Value::Str(v) => v.value,
            Value::Array(v) => v.value,
            Value::Enumeration(v) => v.value,
        }
    }

    /// Wraps a byte window into a typed value node for an already resolved
    /// type description. Arrays and sum types truncate their window and
    /// reject one that is too short; other shapes take it as given.
    pub fn with_type(t: Type<'dwarf>, value: &'value [u8]) -> (r: Result<
        Value<'value, 'dwarf>,
        Error,
    >)
        requires
            t.wf(),
        ensures
            value_result_matches(r, t, value@),
    {
        match t {
            Type::Base(s) => Ok(Value::Base(Base { schema: s, value })),
            Type::MutPtr(s) => Ok(Value::MutPtr(Pointer { schema: s, value })),
            Type::Structure(s) => Ok(
                Value::Structure(structure::Struct::with_schema(value, s)),
            ),
            Type::Slice(s) => Ok(Value::Slice(Slice { schema: s, value })),
            Type::Str(s) => Ok(Value::Str(Str { schema: s, value })),
            Type::Array(s) => match array::Array::with_schema(value, s) {
                Ok(v) => Ok(Value::Array(v)),
                Err(e) => Err(e),
            },
            Type::Enumeration(s) => match enumeration::Enum::with_schema(value, s) {
                Ok(v) => Ok(Value::Enumeration(v)),
                Err(e) => Err(e),
            },
        }
    }
}

} // verus!
