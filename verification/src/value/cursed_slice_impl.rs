//! A live borrowed-view value: a data-pointer byte window plus an
//! externally supplied element count.
//!
//! This is the one place an address is recovered from inspected bytes
//! rather than structurally subdivided from an already validated window.
//! Dereferencing that address cannot be checked against anything the debug
//! information gives, so the fetch of the pointed-to region stays outside
//! this library: a caller hands the fetched bytes to [`SlicePointer::iter_in`],
//! which validates their length and walks them.

use vstd::prelude::*;
use vstd::bytes::{spec_u64_from_le_bytes, u64_from_le_bytes};
use crate::error::{Attribute, Error};
use crate::schema;
use crate::schema::classify_result;
use crate::value::array::ArrayIter;

verus! {

/// A reflected borrowed-view value. `value` holds the data pointer's own
/// bytes; `length` is the element count, threaded in from whatever
/// produced this value (for instance a sibling length field already
/// interpreted).
#[derive(Clone, Copy)]
pub struct SlicePointer<'value, 'dwarf> {
    pub schema: schema::Pointer<'dwarf>,
    pub value: &'value [u8],
    pub length: usize,
}

/// What computing the pointed-to region's byte length must yield: element
/// size times element count, with the multiplication checked, or the exact
/// error met while resolving the element type.
pub open spec fn byte_len_outcome(store: crate::debug_info::Store, id: int, length: nat) -> Result<
    u64,
    Error,
> {
    match store.at(id).element_type {
        None => Err(Error::MissingAttribute { attr: Attribute::DeclaredType }),
        Some(t) => match classify_result(store, t as int) {
            Err(e) => Err(e),
            Ok(_) => match store.at(t as int).byte_size {
                None => Err(Error::MissingAttribute { attr: Attribute::ByteSize }),
                Some(es) => if es * length > u64::MAX {
                    Err(Error::SizeOverflow)
                } else {
                    Ok((es * length) as u64)
                },
            },
        },
    }
}

impl<'value, 'dwarf> SlicePointer<'value, 'dwarf> {
    /// Builds the view from a pointer schema, the pointer's bytes, and the
    /// externally supplied element count.
    pub fn new(
        schema: schema::Pointer<'dwarf>,
        value: &'value [u8],
        length: usize,
    ) -> (r: Self)
        ensures
            r.schema == schema,
            r.value == value,
            r.length == length,
    {
        SlicePointer { schema, value, length }
    }

    /// The value of the `data_ptr` field of this slice: the pointer's own
    /// bytes.
    pub fn data_ptr(&self) -> (r: &'value [u8])
        ensures
            r == self.value,
    {
        self.value
    }

    /// The length of the slice, in elements.
    pub fn length(&self) -> (r: usize)
        ensures
            r == self.length,
    {
        self.length
    }

    /// Reinterprets the stored data-pointer bytes as a raw address, read
    /// little-endian; a pointer window that is not address-sized is
    /// rejected.
    pub fn address(&self) -> (r: Result<u64, Error>)
        ensures
            self.value@.len() == 8 ==> r == Ok::<u64, Error>(spec_u64_from_le_bytes(self.value@)),
            self.value@.len() != 8 ==> r == Err::<u64, Error>(Error::WindowTooShort),
    {
        if self.value.len() == 8 {
            Ok(u64_from_le_bytes(self.value))
        } else {
            Err(Error::WindowTooShort)
        }
    }

    /// The byte length of the pointed-to region: element size times element
    /// count, with the multiplication checked.
    pub fn byte_len(&self) -> (r: Result<u64, Error>)
        requires
            self.schema.wf(),
        ensures
            r == byte_len_outcome(*self.schema.store, self.schema.entry as int, self.length as nat),
    {
        let ty = self.schema.ty()?;
        let elt_size = ty.size()?;
        match elt_size.checked_mul(self.length as u64) {
            Some(b) => Ok(b),
            None => Err(Error::SizeOverflow),
        }
    }

    /// Walks the pointed-to region, handed in by the caller as `target`.
    /// The caller is trusted to have fetched exactly the region the stored
    /// address denotes; this library only checks that the region's length
    /// is exactly element size times element count, and rejects any other.
    pub fn iter_in<'t>(&self, target: &'t [u8]) -> (r: Result<ArrayIter<'t, 'dwarf>, Error>)
        requires
            self.schema.wf(),
        ensures
            ({
                let store = *self.schema.store;
                match byte_len_outcome(store, self.schema.entry as int, self.length as nat) {
                    Err(e) => r == Err::<ArrayIter<'t, 'dwarf>, Error>(e),
                    Ok(b) => if target@.len() != b {
                        r == Err::<ArrayIter<'t, 'dwarf>, Error>(Error::WindowTooShort)
                    } else {
                        &&& r matches Ok(it)
                        &&& it.wf()
                        &&& it.cursor == 0
                        &&& it.count == self.length
                        &&& it.value == target
                        &&& store.at(self.schema.entry as int).element_type matches Some(t)
                            && it.elt.entry_of() == t as int && it.elt.store_of() == store
                        &&& store.at(self.schema.entry as int).element_type matches Some(t)
                            && store.at(t as int).byte_size matches Some(es) && it.elt_size == es
                    },
                }
            }),
    {
        let ty = self.schema.ty()?;
        let elt_size = ty.size()?;
        let bytes = match elt_size.checked_mul(self.length as u64) {
            Some(b) => b,
            None => return Err(Error::SizeOverflow),
        };
        if target.len() as u64 != bytes {
            return Err(Error::WindowTooShort);
        }
        proof {
            assert(elt_size as int * self.length as int == self.length as int
                * elt_size as int) by (nonlinear_arith);
        }
        Ok(
            ArrayIter {
                elt: ty,
                elt_size,
                count: self.length as u64,
                value: target,
                cursor: 0,
            },
        )
    }
}

} // verus!
