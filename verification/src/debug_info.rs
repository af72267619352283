//! The model of compiler-emitted debug metadata that this library reads.
//!
//! An external debug-format reader supplies entries, attributes and location
//! expressions; this module holds them as plain values, addressed by a stable
//! per-entry index into a [`Store`]. Nothing in this library ever mutates a
//! store.

use vstd::prelude::*;
use crate::error::Tag;

verus! {

/// A recipe for computing an address relative to a base address.
#[derive(Clone, Copy, Debug, PartialEq, Eq, Structural)]
pub struct LocationExpression {
    /// The displacement the expression adds to its base address.
    pub offset: u64,
}

impl LocationExpression {
    /// The address this expression denotes for the given base, or `None`
    /// when the sum does not fit in an address.
    pub fn address(&self, base: u64) -> (r: Option<u64>)
        ensures
            base + self.offset <= u64::MAX ==> r == Some((base + self.offset) as u64),
            base + self.offset > u64::MAX ==> r is None,
    {
        base.checked_add(self.offset)
    }
}

/// A variant's discriminant constant, typed by its encoding width.
#[derive(Clone, Copy, Debug, PartialEq, Eq, Structural)]
pub enum DiscriminantValue {
    U8(u8),
    U16(u16),
    U32(u32),
    U64(u64),
}

/// One member (field) sub-entry of a composite entry.
#[derive(Clone, Debug, PartialEq, Eq)]
pub struct MemberEntry {
    /// The member's name attribute, if present.
    pub name: Option<Vec<u8>>,
    /// Index of the entry describing the member's declared type.
    pub declared_type: Option<usize>,
    /// Location expression giving the member's byte offset.
    pub location: Option<LocationExpression>,
}

/// One variant sub-entry of a sum-type entry.
#[derive(Clone, Debug, PartialEq, Eq)]
pub struct VariantEntry {
    /// The variant's name attribute, if present.
    pub name: Option<Vec<u8>>,
    /// The variant's discriminant constant; absent for the default variant.
    pub discriminant: Option<DiscriminantValue>,
    /// The variant's own field list.
    pub members: Vec<MemberEntry>,
}

/// One node of the debug-metadata tree, reduced to the attributes and
/// sub-entries this library interprets.
#[derive(Clone, Debug, PartialEq, Eq)]
pub struct Entry {
    /// The entry's kind.
    pub tag: Tag,
    /// The described type's canonical textual name, if present.
    pub name: Option<Vec<u8>>,
    /// The described type's total size in bytes, if present.
    pub byte_size: Option<u64>,
    /// The described type's alignment in bytes; absence is a valid
    /// "unspecified" outcome, not an error.
    pub alignment: Option<u64>,
    /// Ordered member sub-entries of a structure entry.
    pub members: Vec<MemberEntry>,
    /// The referenced element or pointee type of an array or pointer entry.
    pub element_type: Option<usize>,
    /// The element count of an array entry.
    pub element_count: Option<u64>,
    /// Ordered variant sub-entries of a sum-type entry.
    pub variants: Vec<VariantEntry>,
    /// Location expression of a sum type's discriminant.
    pub discriminant_location: Option<LocationExpression>,
}

/// The debug-information store: every entry of one compilation unit,
/// addressed by index. Read-only for the lifetime of every schema built
/// over it.
#[derive(Clone, Debug, PartialEq, Eq)]
pub struct Store {
    pub entries: Vec<Entry>,
}

impl Store {
    /// Whether `id` addresses an entry of this store.
    pub open spec fn has(self, id: int) -> bool {
        0 <= id < self.entries@.len()
    }

    /// The entry at `id`.
    pub open spec fn at(self, id: int) -> Entry {
        self.entries@[id]
    }

    /// The number of entries held.
    pub fn len(&self) -> (n: usize)
        ensures
            n == self.entries@.len(),
    {
        self.entries.len()
    }

    /// The entry at `id`, or an underlying-reader failure for an index the
    /// store cannot supply.
    pub fn entry(&self, id: usize) -> (r: Result<&Entry, crate::error::Error>)
        ensures
            self.has(id as int) ==> r == Ok::<&Entry, crate::error::Error>(&self.entries@[id as int]),
            !self.has(id as int) ==> r == Err::<&Entry, crate::error::Error>(
                crate::error::Error::UnderlyingReaderError,
            ),
    {
        if id < self.entries.len() {
            Ok(&self.entries[id])
        } else {
            Err(crate::error::Error::UnderlyingReaderError)
        }
    }
}

} // verus!
