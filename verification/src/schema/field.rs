//! One structure member: name, lazily resolved declared type, and the
//! location expression giving its byte offset.

use vstd::prelude::*;
use crate::debug_info::{LocationExpression, MemberEntry, Store};
use crate::error::{Attribute, Error};
use crate::schema::name::Name;
use crate::schema::Type;

verus! {

/// The schema of one member of a structure or variant. Borrows the member
/// sub-entry from the debug-information store.
#[derive(Clone, Copy)]
pub struct Field<'dwarf> {
    pub store: &'dwarf Store,
    pub member: &'dwarf MemberEntry,
}

/// What resolving a member's declared type must yield: the member without
/// a declared-type attribute fails, and otherwise the result classifies
/// the referenced entry.
pub open spec fn member_type_outcome(r: Result<Type, Error>, store: Store, m: MemberEntry) -> bool {
    match m.declared_type {
        None => r == Err::<Type, Error>(Error::MissingAttribute { attr: Attribute::DeclaredType }),
        Some(id) => crate::schema::type_result_matches(r, store, id as int),
    }
}

impl<'dwarf> Field<'dwarf> {
    /// The member's name attribute, if present.
    pub fn name(&self) -> (r: Option<Name<'dwarf>>)
        ensures
            self.member.name matches Some(n) ==> (r matches Some(name) && name@ == n@),
            self.member.name is None ==> r is None,
    {
        match &self.member.name {
            Some(b) => Some(Name { bytes: b }),
            None => None,
        }
    }

    /// Resolves the member's declared type, lazily: the referenced entry is
    /// classified only when asked for.
    pub fn ty(&self) -> (r: Result<Type<'dwarf>, Error>)
        ensures
            member_type_outcome(r, *self.store, *self.member),
    {
        match self.member.declared_type {
            None => Err(Error::MissingAttribute { attr: Attribute::DeclaredType }),
            Some(id) => Type::from_entry(self.store, id),
        }
    }

    /// The location expression giving the member's byte offset, if present.
    pub fn offset(&self) -> (r: Option<LocationExpression>)
        ensures
            r == self.member.location,
    {
        self.member.location
    }
}

} // verus!
