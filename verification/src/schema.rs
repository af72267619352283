//! Schema resolution: walking debug-information entries and recovering
//! structural descriptions of the types they describe.
//!
//! One closed sum type, [`Type`], has a variant per type shape; an entry is
//! classified once, when first encountered, and matched exhaustively
//! wherever a shape-specific algorithm is needed.

use vstd::prelude::*;

pub mod array;
pub mod enumeration;
pub mod field;
pub mod name;
pub mod slice;
pub mod str_impl;
pub mod structure;

use crate::debug_info::Store;
use crate::error::{Attribute, Error, Tag};
use crate::schema::array::Array;
use crate::schema::enumeration::Enum;
use crate::schema::name::Name;
use crate::schema::slice::Slice;
use crate::schema::structure::Struct;

verus! {

/// The textual convention for a borrowed contiguous view: the name opens
/// with these bytes ...
pub open spec fn slice_open_token() -> Seq<u8> {
    seq![38u8, 91u8]
}

/// ... and closes with this byte.
pub open spec fn slice_close_token() -> Seq<u8> {
    seq![93u8]
}

/// The literal pattern a name-mismatch diagnostic reports for the slice
/// convention.
pub open spec fn slice_expected_pattern() -> Seq<u8> {
    seq![38u8, 91u8, 84u8, 93u8]
}

/// The one reserved literal naming the borrowed text view.
pub open spec fn str_literal() -> Seq<u8> {
    seq![38u8, 115u8, 116u8, 114u8]
}

/// Whether a name follows the borrowed-contiguous-view convention.
pub open spec fn is_slice_name(n: Seq<u8>) -> bool {
    slice_open_token().is_prefix_of(n) && slice_close_token().is_suffix_of(n)
}

/// Whether a name is exactly the reserved text-view literal.
pub open spec fn is_str_name(n: Seq<u8>) -> bool {
    n == str_literal()
}

/// The shape an entry classifies to.
#[derive(Clone, Copy, Debug, PartialEq, Eq, Structural)]
pub enum Shape {
    Base,
    MutPtr,
    Structure,
    Slice,
    Str,
    Array,
    Enumeration,
}

/// How classification of the entry at `id` must come out: which shape it
/// takes, or which error it reports, as a function of the entry alone.
pub open spec fn classify_result(store: Store, id: int) -> Result<Shape, Error> {
    if !store.has(id) {
        Err(Error::UnderlyingReaderError)
    } else {
        let e = store.at(id);
        match e.tag {
            Tag::BaseType => Ok(Shape::Base),
            Tag::PointerType => Ok(Shape::MutPtr),
            Tag::ArrayType => Ok(Shape::Array),
            Tag::EnumerationType => Ok(Shape::Enumeration),
            Tag::StructureType => match e.name {
                None => Err(Error::MissingAttribute { attr: Attribute::Name }),
                Some(n) => if is_str_name(n@) {
                    if e.members@.len() >= 2 {
                        Ok(Shape::Str)
                    } else {
                        Err(Error::MissingField)
                    }
                } else if is_slice_name(n@) {
                    if e.members@.len() >= 2 {
                        Ok(Shape::Slice)
                    } else {
                        Err(Error::MissingField)
                    }
                } else {
                    Ok(Shape::Structure)
                },
            },
            Tag::Other => Err(
                Error::TagMismatch { expected: Tag::StructureType, actual: Tag::Other },
            ),
        }
    }
}

/// A schema for a primitive scalar type.
#[derive(Clone, Copy)]
pub struct Base<'dwarf> {
    pub store: &'dwarf Store,
    pub entry: usize,
}

impl<'dwarf> Base<'dwarf> {
    pub open spec fn wf(self) -> bool {
        &&& self.store.has(self.entry as int)
        &&& self.store.at(self.entry as int).tag == Tag::BaseType
    }

    /// The scalar's size in bytes, read from its entry.
    pub fn size(&self) -> (r: Result<u64, Error>)
        requires
            self.wf(),
        ensures
            self.store.at(self.entry as int).byte_size matches Some(s) ==> r == Ok::<u64, Error>(s),
            self.store.at(self.entry as int).byte_size is None ==> r == Err::<u64, Error>(
                Error::MissingAttribute { attr: Attribute::ByteSize },
            ),
    {
        crate::get_size(&self.store.entries[self.entry])
    }
}

/// A schema for a raw pointer type.
#[derive(Clone, Copy)]
pub struct Pointer<'dwarf> {
    pub store: &'dwarf Store,
    pub entry: usize,
}

/// What resolving the type an entry references through its element-type
/// attribute (a pointer's pointee, an array's element) must yield.
pub open spec fn referenced_type_outcome(r: Result<Type, Error>, store: Store, id: int) -> bool {
    match store.at(id).element_type {
        None => r == Err::<Type, Error>(Error::MissingAttribute { attr: Attribute::DeclaredType }),
        Some(t) => type_result_matches(r, store, t as int),
    }
}

impl<'dwarf> Pointer<'dwarf> {
    pub open spec fn wf(self) -> bool {
        &&& self.store.has(self.entry as int)
        &&& self.store.at(self.entry as int).tag == Tag::PointerType
    }

    /// Resolves the type this pointer points to.
    pub fn ty(&self) -> (r: Result<Type<'dwarf>, Error>)
        requires
            self.wf(),
        ensures
            referenced_type_outcome(r, *self.store, self.entry as int),
    {
        match self.store.entries[self.entry].element_type {
            None => Err(Error::MissingAttribute { attr: Attribute::DeclaredType }),
            Some(t) => Type::from_entry(self.store, t),
        }
    }
}

/// A structural description of a type: one variant per shape this library
/// distinguishes.
#[derive(Clone, Copy)]
pub enum Type<'dwarf> {
    Base(Base<'dwarf>),
    MutPtr(Pointer<'dwarf>),
    Structure(Struct<'dwarf>),
    Slice(Slice<'dwarf>),
    Str(str_impl::str<'dwarf>),
    Array(Array<'dwarf>),
    Enumeration(Enum<'dwarf>),
}

impl<'dwarf> Type<'dwarf> {
    /// The store this description was resolved against.
    pub open spec fn store_of(self) -> Store {
        match self {
            Type::Base(s) => *s.store,
            Type::MutPtr(s) => *s.store,
            Type::Structure(s) => *s.store,
            Type::Slice(s) => *s.schema.store,
            Type::Str(s) => *s.schema.store,
            Type::Array(s) => *s.store,
            Type::Enumeration(s) => *s.store,
        }
    }

    /// The entry this description was resolved from.
    pub open spec fn entry_of(self) -> int {
        match self {
            Type::Base(s) => s.entry as int,
            Type::MutPtr(s) => s.entry as int,
            Type::Structure(s) => s.entry as int,
            Type::Slice(s) => s.schema.entry as int,
            Type::Str(s) => s.schema.entry as int,
            Type::Array(s) => s.entry as int,
            Type::Enumeration(s) => s.entry as int,
        }
    }

    /// The shape this description carries.
    pub open spec fn shape(self) -> Shape {
        match self {
            Type::Base(_) => Shape::Base,
            Type::MutPtr(_) => Shape::MutPtr,
            Type::Structure(_) => Shape::Structure,
            Type::Slice(_) => Shape::Slice,
            Type::Str(_) => Shape::Str,
            Type::Array(_) => Shape::Array,
            Type::Enumeration(_) => Shape::Enumeration,
        }
    }

    pub open spec fn wf(self) -> bool {
        match self {
            Type::Base(s) => s.wf(),
            Type::MutPtr(s) => s.wf(),
            Type::Structure(s) => s.wf(),
            Type::Slice(s) => s.wf(),
            Type::Str(s) => s.wf(),
            Type::Array(s) => s.wf(),
            Type::Enumeration(s) => s.wf(),
        }
    }

    /// Classifies the entry at `id` into a structural description.
    pub fn from_entry(store: &'dwarf Store, id: usize) -> (r: Result<Type<'dwarf>, Error>)
        ensures
            type_result_matches(r, *store, id as int),
    {
        let entry = store.entry(id)?;
        match entry.tag {
            Tag::BaseType => Ok(Type::Base(Base { store, entry: id })),
            Tag::PointerType => Ok(Type::MutPtr(Pointer { store, entry: id })),
            Tag::ArrayType => match Array::from_dw_tag_array_type(store, id) {
                Ok(a) => Ok(Type::Array(a)),
                Err(e) => Err(e),
            },
            Tag::EnumerationType => match Enum::from_dw_tag_enumeration_type(store, id) {
                Ok(s) => Ok(Type::Enumeration(s)),
                Err(e) => Err(e),
            },
            Tag::StructureType => {
                let name = Name::from_die(entry)?;
                let str_lit = str_literal_vec();
                let open_tok = slice_open_vec();
                let close_tok = slice_close_vec();
                if name::bytes_eq(name.to_slice(), str_lit.as_slice()) {
                    match str_impl::str::from_dw_tag_structure_type(store, id) {
                        Ok(s) => Ok(Type::Str(s)),
                        Err(e) => Err(e),
                    }
                } else if name::bytes_start_with(name.to_slice(), open_tok.as_slice())
                    && name::bytes_end_with(name.to_slice(), close_tok.as_slice()) {
                    match Slice::from_dw_tag_structure_type(store, id) {
                        Ok(s) => Ok(Type::Slice(s)),
                        Err(e) => Err(e),
                    }
                } else {
                    match Struct::from_dw_tag_structure_type(store, id) {
                        Ok(s) => Ok(Type::Structure(s)),
                        Err(e) => Err(e),
                    }
                }
            },
            Tag::Other => Err(
                Error::TagMismatch { expected: Tag::StructureType, actual: Tag::Other },
            ),
        }
    }

    /// The described type's size in bytes, read from its entry.
    pub fn size(&self) -> (r: Result<u64, Error>)
        requires
            self.wf(),
        ensures
            self.store_of().at(self.entry_of()).byte_size matches Some(s) ==> r == Ok::<
                u64,
                Error,
            >(s),
            self.store_of().at(self.entry_of()).byte_size is None ==> r == Err::<u64, Error>(
                Error::MissingAttribute { attr: Attribute::ByteSize },
            ),
    {
        match self {
            Type::Base(s) => crate::get_size(&s.store.entries[s.entry]),
            Type::MutPtr(s) => crate::get_size(&s.store.entries[s.entry]),
            Type::Structure(s) => crate::get_size(&s.store.entries[s.entry]),
            Type::Slice(s) => crate::get_size(&s.schema.store.entries[s.schema.entry]),
            Type::Str(s) => crate::get_size(&s.schema.store.entries[s.schema.entry]),
            Type::Array(s) => crate::get_size(&s.store.entries[s.entry]),
            Type::Enumeration(s) => crate::get_size(&s.store.entries[s.entry]),
        }
    }
}

/// Whether a description agrees with the entry it was resolved from: same
/// store, same entry, well-formed for its shape.
pub open spec fn type_matches(t: Type, store: Store, id: int) -> bool {
    &&& t.store_of() == store
    &&& t.entry_of() == id
    &&& t.wf()
}

/// What classification must yield: the shape `classify_result` gives, as a
/// well-formed description of the same entry, or exactly the error it gives.
pub open spec fn type_result_matches(r: Result<Type, Error>, store: Store, id: int) -> bool {
    match classify_result(store, id) {
        Ok(shape) => r matches Ok(t) && type_matches(t, store, id) && t.shape() == shape,
        Err(e) => r == Err::<Type, Error>(e),
    }
}

/// The reserved text-view literal, as bytes.
pub fn str_literal_vec() -> (v: Vec<u8>)
    ensures
        v@ == str_literal(),
{
    let v: Vec<u8> = vec![38u8, 115u8, 116u8, 114u8];
    proof {
        assert(v@ =~= str_literal());
    }
    v
}

/// The opening token of the slice convention, as bytes.
pub fn slice_open_vec() -> (v: Vec<u8>)
    ensures
        v@ == slice_open_token(),
{
    let v: Vec<u8> = vec![38u8, 91u8];
    proof {
        assert(v@ =~= slice_open_token());
    }
    v
}

/// The closing token of the slice convention, as bytes.
pub fn slice_close_vec() -> (v: Vec<u8>)
    ensures
        v@ == slice_close_token(),
{
    let v: Vec<u8> = vec![93u8];
    proof {
        assert(v@ =~= slice_close_token());
    }
    v
}

/// The pattern a slice name-mismatch diagnostic reports, as bytes.
pub fn slice_expected_vec() -> (v: Vec<u8>)
    ensures
        v@ == slice_expected_pattern(),
{
    let v: Vec<u8> = vec![38u8, 91u8, 84u8, 93u8];
    proof {
        assert(v@ =~= slice_expected_pattern());
    }
    v
}

} // verus!
