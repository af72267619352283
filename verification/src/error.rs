//! Error kinds shared by schema resolution and value interpretation.
//!
//! Every failure of this library is a deterministic function of the input
//! entry and byte window; nothing is retried.

use vstd::prelude::*;

verus! {

/// The kind of a debug-information entry.
#[derive(Clone, Copy, Debug, PartialEq, Eq, Structural)]
pub enum Tag {
    /// A primitive scalar type.
    BaseType,
    /// A raw pointer type.
    PointerType,
    /// A composite (structure) type.
    StructureType,
    /// A fixed-size array type.
    ArrayType,
    /// A sum type with a discriminant and variants.
    EnumerationType,
    /// Any tag this library does not interpret.
    Other,
}

/// A named attribute a debug entry may carry.
#[derive(Clone, Copy, Debug, PartialEq, Eq, Structural)]
pub enum Attribute {
    /// The type's canonical textual name.
    Name,
    /// The type's total size in bytes.
    ByteSize,
    /// The declared type of a member.
    DeclaredType,
    /// The location expression of a member or discriminant.
    Location,
    /// The element count of an array.
    ElementCount,
}

/// Why a schema or value could not be built.
#[derive(Clone, Debug, PartialEq, Eq)]
pub enum Error {
    /// The entry's tag is not the one the constructor expects.
    TagMismatch { expected: Tag, actual: Tag },
    /// A textual name failed a literal or pattern check; carries the
    /// expected pattern and the actual text, byte for byte.
    NameMismatch { expected: Vec<u8>, actual: Vec<u8> },
    /// A required attribute is absent from the entry.
    MissingAttribute { attr: Attribute },
    /// Fewer member fields are present than a specialization requires.
    MissingField,
    /// The product of element count and element size overflows.
    SizeOverflow,
    /// The supplied byte window is smaller than the schema demands.
    WindowTooShort,
    /// The discriminant matches no variant and no default variant exists.
    NoMatchingVariant,
    /// The debug-information store could not supply a referenced entry.
    UnderlyingReaderError,
}

} // verus!
