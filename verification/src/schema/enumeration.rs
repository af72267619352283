//! The schema of a sum type: an ordered sequence of variant descriptions
//! plus a discriminant location.

use vstd::prelude::*;
use crate::debug_info::{DiscriminantValue, Entry, LocationExpression, Store, VariantEntry};
use crate::error::{Error, Tag};
use crate::schema::name::Name;
use crate::schema::structure::Fields;

verus! {

/// A schema for a sum type (a tagged union with a discriminant and a set
/// of variants).
#[derive(Clone, Copy)]
pub struct Enum<'dwarf> {
    pub store: &'dwarf Store,
    pub entry: usize,
}

/// The schema of one variant of a sum type: an optional discriminant
/// constant and its own field list.
#[derive(Clone, Copy)]
pub struct Variant<'dwarf> {
    pub store: &'dwarf Store,
    pub variant: &'dwarf VariantEntry,
}

impl<'dwarf> Variant<'dwarf> {
    /// The variant's name attribute, if present.
    pub fn name(&self) -> (r: Option<Name<'dwarf>>)
        ensures
            self.variant.name matches Some(n) ==> (r matches Some(name) && name@ == n@),
            self.variant.name is None ==> r is None,
    {
        match &self.variant.name {
            Some(b) => Some(Name { bytes: b }),
            None => None,
        }
    }

    /// The variant's discriminant constant; the default variant is exactly
    /// the one without.
    pub fn discriminant_value(&self) -> (r: Option<DiscriminantValue>)
        ensures
            r == self.variant.discriminant,
    {
        self.variant.discriminant
    }

    /// Whether this is the default (fallback) variant.
    pub fn is_default(&self) -> (r: bool)
        ensures
            r <==> self.variant.discriminant is None,
    {
        self.variant.discriminant.is_none()
    }

    /// The variant's ordered field list, as a restartable walk.
    pub fn fields(&self) -> (r: Fields<'dwarf>)
        ensures
            r.store == self.store,
            r.members == self.variant.members,
            r.cursor == 0,
    {
        Fields { store: self.store, members: &self.variant.members, cursor: 0 }
    }
}

/// A restartable, pull-based walk over a sum type's declared variants, in
/// declaration order.
#[derive(Clone, Copy)]
pub struct Variants<'dwarf> {
    pub store: &'dwarf Store,
    pub variants: &'dwarf Vec<VariantEntry>,
    pub cursor: usize,
}

impl<'dwarf> Variants<'dwarf> {
    /// The next variant's schema, or `None` once every variant has been
    /// handed out.
    pub fn next(&mut self) -> (r: Option<Variant<'dwarf>>)
        ensures
            final(self).store == old(self).store,
            final(self).variants == old(self).variants,
            old(self).cursor < old(self).variants@.len() ==> {
                &&& r matches Some(v)
                &&& v.store == old(self).store
                &&& v.variant == old(self).variants@[old(self).cursor as int]
                &&& final(self).cursor == old(self).cursor + 1
            },
            old(self).cursor >= old(self).variants@.len() ==> {
                &&& r is None
                &&& final(self).cursor == old(self).cursor
            },
    {
        if self.cursor < self.variants.len() {
            let v = Variant { store: self.store, variant: &self.variants[self.cursor] };
            self.cursor = self.cursor + 1;
            Some(v)
        } else {
            None
        }
    }
}

impl<'dwarf> Enum<'dwarf> {
    pub open spec fn wf(self) -> bool {
        &&& self.store.has(self.entry as int)
        &&& self.store.at(self.entry as int).tag == Tag::EnumerationType
    }

    /// Builds the schema from a sum-type entry; any other tag is a
    /// tag-mismatch failure and constructs nothing.
    pub fn from_dw_tag_enumeration_type(store: &'dwarf Store, id: usize) -> (r: Result<
        Self,
        Error,
    >)
        ensures
            !store.has(id as int) ==> r == Err::<Self, Error>(Error::UnderlyingReaderError),
            store.has(id as int) && store.at(id as int).tag != Tag::EnumerationType ==> r == Err::<
                Self,
                Error,
            >(
                Error::TagMismatch {
                    expected: Tag::EnumerationType,
                    actual: store.at(id as int).tag,
                },
            ),
            store.has(id as int) && store.at(id as int).tag == Tag::EnumerationType ==> {
                &&& r matches Ok(s)
                &&& s.store == store
                &&& s.entry == id
                &&& s.wf()
            },
    {
        let entry = store.entry(id)?;
        crate::check_tag(entry, Tag::EnumerationType)?;
        Ok(Enum { store, entry: id })
    }

    /// The entry this schema abstracts over.
    pub fn entry(&self) -> (r: &'dwarf Entry)
        requires
            self.wf(),
        ensures
            r == self.store.at(self.entry as int),
    {
        &self.store.entries[self.entry]
    }

    /// The sum type's name attribute.
    pub fn name(&self) -> (r: Result<Name<'dwarf>, Error>)
        requires
            self.wf(),
        ensures
            self.store.at(self.entry as int).name matches Some(n) ==> (r matches Ok(name)
                && name@ == n@),
            self.store.at(self.entry as int).name is None ==> r == Err::<Name<'dwarf>, Error>(
                Error::MissingAttribute { attr: crate::error::Attribute::Name },
            ),
    {
        Name::from_die(self.entry())
    }

    /// The sum type's total size in bytes, read from its entry.
    pub fn size(&self) -> (r: Result<u64, Error>)
        requires
            self.wf(),
        ensures
            self.store.at(self.entry as int).byte_size matches Some(s) ==> r == Ok::<u64, Error>(s),
            self.store.at(self.entry as int).byte_size is None ==> r == Err::<u64, Error>(
                Error::MissingAttribute { attr: crate::error::Attribute::ByteSize },
            ),
    {
        crate::get_size(self.entry())
    }

    /// The location expression of the discriminant, if present.
    pub fn discriminant_location(&self) -> (r: Option<LocationExpression>)
        requires
            self.wf(),
        ensures
            r == self.store.at(self.entry as int).discriminant_location,
    {
        self.entry().discriminant_location
    }

    /// The declared variants, as a restartable walk in declaration order.
    pub fn variants(&self) -> (r: Variants<'dwarf>)
        requires
            self.wf(),
        ensures
            r.store == self.store,
            r.variants == self.store.at(self.entry as int).variants,
            r.cursor == 0,
    {
        Variants { store: self.store, variants: &self.entry().variants, cursor: 0 }
    }
}

} // verus!
