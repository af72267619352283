//! The schema of a fixed-size array: element type plus element count, read
//! directly from one debug entry.

use vstd::prelude::*;
use crate::debug_info::Store;
use crate::error::{Attribute, Error, Tag};
use crate::schema::Type;

verus! {

/// A schema for a fixed-size array type.
#[derive(Clone, Copy)]
pub struct Array<'dwarf> {
    pub store: &'dwarf Store,
    pub entry: usize,
}

impl<'dwarf> Array<'dwarf> {
    pub open spec fn wf(self) -> bool {
        &&& self.store.has(self.entry as int)
        &&& self.store.at(self.entry as int).tag == Tag::ArrayType
    }

    /// Builds the schema from an array entry; any other tag is a
    /// tag-mismatch failure and constructs nothing.
    pub fn from_dw_tag_array_type(store: &'dwarf Store, id: usize) -> (r: Result<Self, Error>)
        ensures
            !store.has(id as int) ==> r == Err::<Self, Error>(Error::UnderlyingReaderError),
            store.has(id as int) && store.at(id as int).tag != Tag::ArrayType ==> r == Err::<
                Self,
                Error,
            >(Error::TagMismatch { expected: Tag::ArrayType, actual: store.at(id as int).tag }),
            store.has(id as int) && store.at(id as int).tag == Tag::ArrayType ==> {
                &&& r matches Ok(s)
                &&& s.store == store
                &&& s.entry == id
                &&& s.wf()
            },
    {
        let entry = store.entry(id)?;
        crate::check_tag(entry, Tag::ArrayType)?;
        Ok(Array { store, entry: id })
    }

    /// The element count, read from the entry; required, so absence is an
    /// error.
    pub fn count(&self) -> (r: Result<u64, Error>)
        requires
            self.wf(),
        ensures
            self.store.at(self.entry as int).element_count matches Some(n) ==> r == Ok::<
                u64,
                Error,
            >(n),
            self.store.at(self.entry as int).element_count is None ==> r == Err::<u64, Error>(
                Error::MissingAttribute { attr: Attribute::ElementCount },
            ),
    {
        match self.store.entries[self.entry].element_count {
            Some(n) => Ok(n),
            None => Err(Error::MissingAttribute { attr: Attribute::ElementCount }),
        }
    }

    /// Resolves the element type, lazily.
    pub fn elt(&self) -> (r: Result<Type<'dwarf>, Error>)
        requires
            self.wf(),
        ensures
            crate::schema::referenced_type_outcome(r, *self.store, self.entry as int),
    {
        match self.store.entries[self.entry].element_type {
            None => Err(Error::MissingAttribute { attr: Attribute::DeclaredType }),
            Some(t) => Type::from_entry(self.store, t),
        }
    }
}

} // verus!
