//! Reconstructs structural type descriptions ("schemas") from a program's
//! debug metadata and uses them to interpret raw memory regions as typed
//! values, with no compile-time knowledge of the types involved.
//!
//! Schemas are built once from one debug entry each and borrow the
//! debug-information [`Store`](debug_info::Store); values pair a schema with
//! a byte window into live memory and are read-only views. Every operation
//! is a pure function of (schema, byte window) to (typed accessor or error).

use vstd::prelude::*;

pub mod debug_info;
pub mod error;
pub mod render;
pub mod schema;
pub mod value;

use crate::debug_info::Entry;
use crate::error::{Attribute, Error, Tag};

verus! {

/// Checks that an entry carries the tag a schema constructor expects.
pub fn check_tag(entry: &Entry, expected: Tag) -> (r: Result<(), Error>)
    ensures
        entry.tag == expected ==> r == Ok::<(), Error>(()),
        entry.tag != expected ==> r == Err::<(), Error>(
            Error::TagMismatch { expected, actual: entry.tag },
        ),
{
    if entry.tag == expected {
        Ok(())
    } else {
        Err(Error::TagMismatch { expected, actual: entry.tag })
    }
}

/// The byte-size attribute of an entry; required, so absence is an error.
pub fn get_size(entry: &Entry) -> (r: Result<u64, Error>)
    ensures
        entry.byte_size matches Some(s) ==> r == Ok::<u64, Error>(s),
        entry.byte_size is None ==> r == Err::<u64, Error>(
            Error::MissingAttribute { attr: Attribute::ByteSize },
        ),
{
    match entry.byte_size {
        Some(s) => Ok(s),
        None => Err(Error::MissingAttribute { attr: Attribute::ByteSize }),
    }
}

/// The alignment attribute of an entry; absence is a valid "unspecified"
/// outcome, not an error.
pub fn get_align(entry: &Entry) -> (r: Result<Option<u64>, Error>)
    ensures
        r == Ok::<Option<u64>, Error>(entry.alignment),
{
    Ok(entry.alignment)
}

} // verus!
