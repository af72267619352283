//! The schema of a plain composite type: an ordered sequence of member
//! fields plus size and alignment, built once from one debug entry.

use vstd::prelude::*;
use crate::debug_info::{Entry, MemberEntry, Store};
use crate::error::{Error, Tag};
use crate::schema::field::Field;
use crate::schema::name::Name;

verus! {

/// A schema for a composite ("structure") type. Borrows the entry it was
/// built from; immutable thereafter.
#[derive(Clone, Copy)]
pub struct Struct<'dwarf> {
    pub store: &'dwarf Store,
    pub entry: usize,
}

/// A restartable, pull-based walk over an ordered member list. Obtained
/// fresh from the owning schema on each call, so iteration always restarts
/// from the first member.
#[derive(Clone, Copy)]
pub struct Fields<'dwarf> {
    pub store: &'dwarf Store,
    pub members: &'dwarf Vec<MemberEntry>,
    pub cursor: usize,
}

impl<'dwarf> Fields<'dwarf> {
    /// The next member's field schema, or `None` once every member has
    /// been handed out.
    pub fn next(&mut self) -> (r: Option<Field<'dwarf>>)
        ensures
            final(self).store == old(self).store,
            final(self).members == old(self).members,
            old(self).cursor < old(self).members@.len() ==> {
                &&& r matches Some(f)
                &&& f.store == old(self).store
                &&& f.member == old(self).members@[old(self).cursor as int]
                &&& final(self).cursor == old(self).cursor + 1
            },
            old(self).cursor >= old(self).members@.len() ==> {
                &&& r is None
                &&& final(self).cursor == old(self).cursor
            },
    {
        if self.cursor < self.members.len() {
            let f = Field { store: self.store, member: &self.members[self.cursor] };
            self.cursor = self.cursor + 1;
            Some(f)
        } else {
            None
        }
    }
}

impl<'dwarf> Struct<'dwarf> {
    /// Whether this schema addresses a structure entry of its store.
    pub open spec fn wf(self) -> bool {
        &&& self.store.has(self.entry as int)
        &&& self.store.at(self.entry as int).tag == Tag::StructureType
    }

    /// Builds the schema from a structure entry; any other tag is a
    /// tag-mismatch failure and constructs nothing.
    pub fn from_dw_tag_structure_type(store: &'dwarf Store, id: usize) -> (r: Result<
        Self,
        Error,
    >)
        ensures
            !store.has(id as int) ==> r == Err::<Self, Error>(Error::UnderlyingReaderError),
            store.has(id as int) && store.at(id as int).tag != Tag::StructureType ==> r == Err::<
                Self,
                Error,
            >(
                Error::TagMismatch {
                    expected: Tag::StructureType,
                    actual: store.at(id as int).tag,
                },
            ),
            store.has(id as int) && store.at(id as int).tag == Tag::StructureType ==> {
                &&& r matches Ok(s)
                &&& s.store == store
                &&& s.entry == id
                &&& s.wf()
            },
    {
        let entry = store.entry(id)?;
        crate::check_tag(entry, Tag::StructureType)?;
        Ok(Struct { store, entry: id })
    }

    /// The entry this schema abstracts over.
    pub fn entry(&self) -> (r: &'dwarf Entry)
        requires
            self.wf(),
        ensures
            r == self.store.at(self.entry as int),
    {
        &self.store.entries[self.entry]
    }

    /// The structure's name attribute.
    pub fn name(&self) -> (r: Result<Name<'dwarf>, Error>)
        requires
            self.wf(),
        ensures
            self.store.at(self.entry as int).name matches Some(n) ==> (r matches Ok(name)
                && name@ == n@),
            self.store.at(self.entry as int).name is None ==> r == Err::<Name<'dwarf>, Error>(
                Error::MissingAttribute { attr: crate::error::Attribute::Name },
            ),
    {
        Name::from_die(self.entry())
    }

    /// The ordered member list, as a restartable walk; member resolution
    /// stays lazy.
    pub fn fields(&self) -> (r: Fields<'dwarf>)
        requires
            self.wf(),
        ensures
            r.store == self.store,
            r.members == self.store.at(self.entry as int).members,
            r.cursor == 0,
    {
        Fields { store: self.store, members: &self.entry().members, cursor: 0 }
    }

    /// The structure's size in bytes, read from its entry.
    pub fn size(&self) -> (r: Result<u64, Error>)
        requires
            self.wf(),
        ensures
            self.store.at(self.entry as int).byte_size matches Some(s) ==> r == Ok::<u64, Error>(s),
            self.store.at(self.entry as int).byte_size is None ==> r == Err::<u64, Error>(
                Error::MissingAttribute { attr: crate::error::Attribute::ByteSize },
            ),
    {
        crate::get_size(self.entry())
    }

    /// The structure's alignment in bytes; absence means unspecified.
    pub fn align(&self) -> (r: Result<Option<u64>, Error>)
        requires
            self.wf(),
        ensures
            r == Ok::<Option<u64>, Error>(self.store.at(self.entry as int).alignment),
    {
        crate::get_align(self.entry())
    }
}

} // verus!
