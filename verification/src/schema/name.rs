//! Extraction and byte-for-byte comparison of a type's canonical textual
//! name, the leaf utility every name-matching schema constructor uses.

use vstd::prelude::*;
use crate::debug_info::Entry;
use crate::error::{Attribute, Error};

verus! {

/// An opaque text value extracted from a debug entry, never interpreted
/// beyond byte-for-byte comparison against expected literal patterns.
#[derive(Clone, Copy)]
pub struct Name<'dwarf> {
    pub bytes: &'dwarf Vec<u8>,
}

impl<'dwarf> View for Name<'dwarf> {
    type V = Seq<u8>;

    open spec fn view(&self) -> Seq<u8> {
        self.bytes@
    }
}

impl<'dwarf> Name<'dwarf> {
    /// Extracts the name attribute of an entry; a required attribute here,
    /// so absence is an error.
    pub fn from_die(entry: &'dwarf Entry) -> (r: Result<Self, Error>)
        ensures
            entry.name matches Some(n) ==> (r matches Ok(name) && name@ == n@),
            entry.name is None ==> r == Err::<Self, Error>(
                Error::MissingAttribute { attr: Attribute::Name },
            ),
    {
        match &entry.name {
            Some(b) => Ok(Name { bytes: b }),
            None => Err(Error::MissingAttribute { attr: Attribute::Name }),
        }
    }

    /// The name's bytes.
    pub fn to_slice(&self) -> (r: &'dwarf [u8])
        ensures
            r@ == self@,
    {
        self.bytes.as_slice()
    }
}

/// Byte-for-byte equality of two byte strings.
pub fn bytes_eq(a: &[u8], b: &[u8]) -> (r: bool)
    ensures
        r <==> a@ == b@,
{
    if a.len() != b.len() {
        return false;
    }
    let n = a.len();
    let mut i: usize = 0;
    while i < n
        invariant
            n == a@.len() == b@.len(),
            i <= n,
            forall|k: int| 0 <= k < i ==> a@[k] == b@[k],
        decreases n - i,
    {
        if a[i] != b[i] {
            return false;
        }
        i = i + 1;
    }
    proof {
        assert(a@ =~= b@);
    }
    true
}

/// Whether `a` begins with `prefix`, byte for byte.
pub fn bytes_start_with(a: &[u8], prefix: &[u8]) -> (r: bool)
    ensures
        r <==> prefix@.is_prefix_of(a@),
{
    if prefix.len() > a.len() {
        return false;
    }
    let head = vstd::slice::slice_subrange(a, 0, prefix.len());
    bytes_eq(head, prefix)
}

/// Whether `a` ends with `suffix`, byte for byte.
pub fn bytes_end_with(a: &[u8], suffix: &[u8]) -> (r: bool)
    ensures
        r <==> suffix@.is_suffix_of(a@),
{
    if suffix.len() > a.len() {
        return false;
    }
    let tail = vstd::slice::slice_subrange(a, a.len() - suffix.len(), a.len());
    bytes_eq(tail, suffix)
}

} // verus!
