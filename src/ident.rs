use crate::catalog::{
    byte_order_code, class_code, spec_byte_order_of, spec_class_of, ByteOrder, Class,
};
use crate::error::{DecodeError, Field};
use vstd::prelude::*;

verus! {

/// Length of the identification block.
pub const IDENT_LEN: usize = 16;

/// Version byte that marks the current format.
pub const CURRENT_VERSION: u8 = 1;

/// The identification block: class, byte order, version and declared size.
/// The magic and the reserved padding carry no information once checked.
#[derive(Clone, Copy, Debug, PartialEq, Eq, Structural)]
pub struct Identification {
    pub class: Class,
    pub data: ByteOrder,
    pub version: u8,
    pub size: u8,
}

pub open spec fn has_magic(s: Seq<u8>) -> bool {
    s[0] == 0x7f && s[1] == 0x45 && s[2] == 0x4c && s[3] == 0x46
}

/// What decoding the identification block at the start of `s` gives.
pub open spec fn spec_decode_ident(s: Seq<u8>) -> Result<Identification, DecodeError> {
    if s.len() < IDENT_LEN {
        Err(DecodeError::Truncated(Field::Ident))
    } else if !has_magic(s) {
        Err(DecodeError::InvalidMagic)
    } else {
        match spec_class_of(s[4]) {
            None => Err(DecodeError::UnknownClass(s[4])),
            Some(class) => match spec_byte_order_of(s[5]) {
                None => Err(DecodeError::UnknownByteOrder(s[5])),
                Some(data) => Ok(Identification { class, data, version: s[6], size: s[15] }),
            },
        }
    }
}

/// The sixteen bytes that encode `id`, with zeroed padding.
pub open spec fn ident_bytes(id: Identification) -> Seq<u8> {
    seq![
        0x7fu8,
        0x45u8,
        0x4cu8,
        0x46u8,
        class_code(id.class),
        byte_order_code(id.data),
        id.version,
        0u8,
        0u8,
        0u8,
        0u8,
        0u8,
        0u8,
        0u8,
        0u8,
        id.size,
    ]
}

impl Identification {
    /// An identification of the given class and byte order, current version, declared size 16.
    pub fn new(class: Class, data: ByteOrder) -> (r: Identification)
        ensures
            r == (Identification { class, data, version: CURRENT_VERSION, size: IDENT_LEN as u8 }),
    {
        Identification { class, data, version: CURRENT_VERSION, size: IDENT_LEN as u8 }
    }

    /// Decodes the identification block at the start of `b`.
    pub fn decode(b: &[u8]) -> (r: Result<Identification, DecodeError>)
        ensures
            r == spec_decode_ident(b@),
    {
        if b.len() < IDENT_LEN {
            return Err(DecodeError::Truncated(Field::Ident));
        }
        if !(b[0] == 0x7f && b[1] == 0x45 && b[2] == 0x4c && b[3] == 0x46) {
            return Err(DecodeError::InvalidMagic);
        }
        let class = match Class::from_code(b[4]) {
            Some(c) => c,
            None => return Err(DecodeError::UnknownClass(b[4])),
        };
        let data = match ByteOrder::from_code(b[5]) {
            Some(o) => o,
            None => return Err(DecodeError::UnknownByteOrder(b[5])),
        };
        Ok(Identification { class, data, version: b[6], size: b[15] })
    }

    /// Appends the sixteen bytes that encode this identification.
    pub fn write(&self, out: &mut Vec<u8>)
        ensures
            final(out)@ == old(out)@ + ident_bytes(*self),
    {
        out.push(0x7f);
        out.push(0x45);
        out.push(0x4c);
        out.push(0x46);
        out.push(self.class.code());
        out.push(self.data.code());
        out.push(self.version);
        let ghost want = ident_bytes(*self);
        assert(out@ =~= old(out)@ + want.subrange(0, 7));
        let mut i: usize = 0;
        while i < 8
            invariant
                i <= 8,
                want == ident_bytes(*self),
                out@ =~= old(out)@ + want.subrange(0, 7 + i as int),
            decreases 8 - i,
        {
            out.push(0);
            i = i + 1;
            assert(out@ =~= old(out)@ + want.subrange(0, 7 + i as int));
        }
        out.push(self.size);
        assert(final(out)@ =~= old(out)@ + ident_bytes(*self));
    }
}

} // verus!
