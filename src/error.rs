use vstd::prelude::*;

verus! {

/// A field of the identification block or of the file header, named in diagnostics.
#[derive(Clone, Copy, Debug, PartialEq, Eq, Structural)]
pub enum Field {
    Ident,
    Type,
    Machine,
    Version,
    Entry,
    PhOff,
    ShOff,
    Flags,
    EhSize,
    PhEntSize,
    PhNum,
    ShEntSize,
    ShNum,
    ShStrNdx,
    IdentVersion,
    IdentSize,
}

/// Why a buffer could not be decoded, or why a decoded header fails strict validation.
#[derive(Clone, Copy, Debug, PartialEq, Eq, Structural)]
pub enum DecodeError {
    /// The first four bytes are not `0x7F 'E' 'L' 'F'`.
    InvalidMagic,
    /// The class byte is not a known class; `0` when the class is unset and a header is asked for.
    UnknownClass(u8),
    /// The byte-order byte is not a known order; `0` when the order is unset and a multi-byte field is read.
    UnknownByteOrder(u8),
    /// The buffer ends before the named field.
    Truncated(Field),
    /// A self-describing field disagrees with the structure: field, expected value, actual value.
    StructuralMismatch(Field, u64, u64),
}

} // verus!
