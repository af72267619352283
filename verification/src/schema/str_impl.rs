//! The schema of the borrowed text view: a structure whose name equals one
//! reserved literal exactly and whose first two fields are consumed, in
//! declaration order, as data pointer and length.

use vstd::prelude::*;
use crate::debug_info::{Entry, Store};
use crate::error::{Attribute, Error, Tag};
use crate::schema::field::Field;
use crate::schema::name::{bytes_eq, Name};
use crate::schema::structure::Struct;
use crate::schema::{classify_result, is_str_name, str_literal, str_literal_vec, Type};

verus! {

/// A schema for the borrowed text view.
#[derive(Clone, Copy)]
#[allow(non_camel_case_types)]
pub struct str<'dwarf> {
    pub schema: Struct<'dwarf>,
    pub data_ptr: Field<'dwarf>,
    pub length: Field<'dwarf>,
}

impl<'dwarf> str<'dwarf> {
    /// The underlying structure carries exactly the reserved literal as its
    /// name, has at least two fields, and `data_ptr` and `length` are its
    /// first two, in declaration order.
    pub open spec fn wf(self) -> bool {
        let e = self.schema.store.at(self.schema.entry as int);
        &&& self.schema.wf()
        &&& e.name matches Some(n) && is_str_name(n@)
        &&& e.members@.len() >= 2
        &&& self.data_ptr.store == self.schema.store
        &&& self.length.store == self.schema.store
        &&& self.data_ptr.member == e.members@[0]
        &&& self.length.member == e.members@[1]
    }

    /// Builds the schema from a structure entry, validating the reserved
    /// literal and pulling exactly two fields in declaration order.
    pub fn from_dw_tag_structure_type(store: &'dwarf Store, id: usize) -> (r: Result<
        Self,
        Error,
    >)
        ensures
            !store.has(id as int) ==> r == Err::<Self, Error>(Error::UnderlyingReaderError),
            store.has(id as int) ==> ({
                let e = store.at(id as int);
                if e.tag != Tag::StructureType {
                    r == Err::<Self, Error>(
                        Error::TagMismatch { expected: Tag::StructureType, actual: e.tag },
                    )
                } else {
                    match e.name {
                        None => r == Err::<Self, Error>(
                            Error::MissingAttribute { attr: Attribute::Name },
                        ),
                        Some(n) => if !is_str_name(n@) {
                            &&& r matches Err(err)
                            &&& err matches Error::NameMismatch { expected, actual }
                            &&& expected@ == str_literal()
                            &&& actual@ == n@
                        } else if e.members@.len() < 2 {
                            r == Err::<Self, Error>(Error::MissingField)
                        } else {
                            &&& r matches Ok(s)
                            &&& s.wf()
                            &&& s.schema.store == store
                            &&& s.schema.entry == id
                        },
                    }
                }
            }),
    {
        let entry = store.entry(id)?;
        crate::check_tag(entry, Tag::StructureType)?;

        let name = Name::from_die(entry)?;
        let name = name.to_slice();
        let literal = str_literal_vec();
        if !bytes_eq(name, literal.as_slice()) {
            let actual = vstd::slice::slice_to_vec(name);
            return Err(Error::NameMismatch { expected: literal, actual });
        }

        let schema = Struct::from_dw_tag_structure_type(store, id)?;
        let mut fields = schema.fields();

        let data_ptr = match fields.next() {
            Some(f) => f,
            None => return Err(Error::MissingField),
        };
        let length = match fields.next() {
            Some(f) => f,
            None => return Err(Error::MissingField),
        };

        Ok(str { schema, data_ptr, length })
    }

    /// The entry this schema abstracts over.
    pub fn entry(&self) -> (r: &'dwarf Entry)
        requires
            self.schema.wf(),
        ensures
            r == self.schema.store.at(self.schema.entry as int),
    {
        self.schema.entry()
    }

    /// The `data_ptr` field of this text view.
    pub fn data_ptr(&self) -> (r: Field<'dwarf>)
        ensures
            r == self.data_ptr,
    {
        self.data_ptr.clone()
    }

    /// The `length` field of this text view.
    pub fn length(&self) -> (r: &Field<'dwarf>)
        ensures
            r == self.length,
    {
        &self.length
    }

    /// Whenever the data pointer's declared type resolves, it resolves to a
    /// raw pointer: the one structural invariant this design treats as a
    /// layout contract rather than a recoverable error.
    pub open spec fn elt_shape_ok(self) -> bool {
        match self.data_ptr.member.declared_type {
            None => true,
            Some(t) => classify_result(*self.schema.store, t as int) matches Ok(sh) ==> sh
                is MutPtr,
        }
    }

    /// The element type of this text view: the type its data pointer points
    /// to.
    pub fn elt(&self) -> (r: Result<Type<'dwarf>, Error>)
        requires
            self.wf(),
            self.elt_shape_ok(),
        ensures
            ({
                let m = self.schema.store.at(self.schema.entry as int).members@[0];
                match m.declared_type {
                    None => r == Err::<Type<'dwarf>, Error>(
                        Error::MissingAttribute { attr: Attribute::DeclaredType },
                    ),
                    Some(pt) => match classify_result(*self.schema.store, pt as int) {
                        Err(e) => r == Err::<Type<'dwarf>, Error>(e),
                        Ok(_) => crate::schema::referenced_type_outcome(
                            r,
                            *self.schema.store,
                            pt as int,
                        ),
                    },
                }
            }),
    {
        match self.data_ptr.ty() {
            Err(e) => Err(e),
            Ok(Type::MutPtr(p)) => p.ty(),
            Ok(_) => {
                proof {
                    assert(false);
                }
                vstd::pervasive::unreached()
            },
        }
    }

    /// The size of this text view, in bytes: that of its underlying
    /// structure entry.
    pub fn size(&self) -> (r: Result<u64, Error>)
        requires
            self.schema.wf(),
        ensures
            self.schema.store.at(self.schema.entry as int).byte_size matches Some(s) ==> r == Ok::<
                u64,
                Error,
            >(s),
            self.schema.store.at(self.schema.entry as int).byte_size is None ==> r == Err::<
                u64,
                Error,
            >(Error::MissingAttribute { attr: Attribute::ByteSize }),
    {
        crate::get_size(self.entry())
    }

    /// The alignment of this text view, in bytes: that of its underlying
    /// structure entry; absence means unspecified.
    pub fn align(&self) -> (r: Result<Option<u64>, Error>)
        requires
            self.schema.wf(),
        ensures
            r == Ok::<Option<u64>, Error>(
                self.schema.store.at(self.schema.entry as int).alignment,
            ),
    {
        crate::get_align(self.entry())
    }
}

} // verus!
