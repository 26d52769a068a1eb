use crate::catalog::ByteOrder;
use crate::codec::{
    dec16, dec32, dec64, enc16, enc32, enc64, lemma_dec16_enc16, lemma_dec32_enc32,
    lemma_dec64_enc64, read_u16, read_u32, read_u64, write_u16, write_u32, write_u64,
};
use crate::error::{DecodeError, Field};
use crate::ident::IDENT_LEN;
use vstd::prelude::*;

verus! {

/// Size of the whole file header, identification included, for the 32-bit class.
pub const EHDR32_SIZE: usize = 52;

/// Size of the whole file header, identification included, for the 64-bit class.
pub const EHDR64_SIZE: usize = 64;

/// Object file version that marks the current format.
pub const EV_CURRENT: u32 = 1;

/// File header fields of a 32-bit object: addresses and offsets are 32 bits wide.
#[allow(non_camel_case_types)]
#[derive(Clone, Copy, Debug, PartialEq, Eq, Structural)]
pub struct elf32_ehdr {
    pub e_type: u16,
    pub e_machine: u16,
    pub e_version: u32,
    pub e_entry: u32,
    pub e_phoff: u32,
    pub e_shoff: u32,
    pub e_flags: u32,
    pub e_ehsize: u16,
    pub e_phentsize: u16,
    pub e_phnum: u16,
    pub e_shentsize: u16,
    pub e_shnum: u16,
    pub e_shstrndx: u16,
}

/// File header fields of a 64-bit object: addresses and offsets are 64 bits wide.
#[allow(non_camel_case_types)]
#[derive(Clone, Copy, Debug, PartialEq, Eq, Structural)]
pub struct elf64_ehdr {
    pub e_type: u16,
    pub e_machine: u16,
    pub e_version: u32,
    pub e_entry: u64,
    pub e_phoff: u64,
    pub e_shoff: u64,
    pub e_flags: u32,
    pub e_ehsize: u16,
    pub e_phentsize: u16,
    pub e_phnum: u16,
    pub e_shentsize: u16,
    pub e_shnum: u16,
    pub e_shstrndx: u16,
}

/// The first 32-bit header field that does not fit in `len` bytes.
pub open spec fn missing_field32(len: int) -> Field {
    if len < 18 {
        Field::Type
    } else if len < 20 {
        Field::Machine
    } else if len < 24 {
        Field::Version
    } else if len < 28 {
        Field::Entry
    } else if len < 32 {
        Field::PhOff
    } else if len < 36 {
        Field::ShOff
    } else if len < 40 {
        Field::Flags
    } else if len < 42 {
        Field::EhSize
    } else if len < 44 {
        Field::PhEntSize
    } else if len < 46 {
        Field::PhNum
    } else if len < 48 {
        Field::ShEntSize
    } else if len < 50 {
        Field::ShNum
    } else {
        Field::ShStrNdx
    }
}

/// The first 64-bit header field that does not fit in `len` bytes.
pub open spec fn missing_field64(len: int) -> Field {
    if len < 18 {
        Field::Type
    } else if len < 20 {
        Field::Machine
    } else if len < 24 {
        Field::Version
    } else if len < 32 {
        Field::Entry
    } else if len < 40 {
        Field::PhOff
    } else if len < 48 {
        Field::ShOff
    } else if len < 52 {
        Field::Flags
    } else if len < 54 {
        Field::EhSize
    } else if len < 56 {
        Field::PhEntSize
    } else if len < 58 {
        Field::PhNum
    } else if len < 60 {
        Field::ShEntSize
    } else if len < 62 {
        Field::ShNum
    } else {
        Field::ShStrNdx
    }
}

/// What decoding the 32-bit header that follows the identification block in `s` gives.
pub open spec fn spec_decode32(s: Seq<u8>, o: ByteOrder) -> Result<elf32_ehdr, DecodeError> {
    if o == ByteOrder::DataNone {
        Err(DecodeError::UnknownByteOrder(0))
    } else if s.len() < EHDR32_SIZE {
        Err(DecodeError::Truncated(missing_field32(s.len() as int)))
    } else {
        Ok(
            elf32_ehdr {
                e_type: dec16(s, 16, o),
                e_machine: dec16(s, 18, o),
                e_version: dec32(s, 20, o),
                e_entry: dec32(s, 24, o),
                e_phoff: dec32(s, 28, o),
                e_shoff: dec32(s, 32, o),
                e_flags: dec32(s, 36, o),
                e_ehsize: dec16(s, 40, o),
                e_phentsize: dec16(s, 42, o),
                e_phnum: dec16(s, 44, o),
                e_shentsize: dec16(s, 46, o),
                e_shnum: dec16(s, 48, o),
                e_shstrndx: dec16(s, 50, o),
            },
        )
    }
}

/// What decoding the 64-bit header that follows the identification block in `s` gives.
pub open spec fn spec_decode64(s: Seq<u8>, o: ByteOrder) -> Result<elf64_ehdr, DecodeError> {
    if o == ByteOrder::DataNone {
        Err(DecodeError::UnknownByteOrder(0))
    } else if s.len() < EHDR64_SIZE {
        Err(DecodeError::Truncated(missing_field64(s.len() as int)))
    } else {
        Ok(
            elf64_ehdr {
                e_type: dec16(s, 16, o),
                e_machine: dec16(s, 18, o),
                e_version: dec32(s, 20, o),
                e_entry: dec64(s, 24, o),
                e_phoff: dec64(s, 32, o),
                e_shoff: dec64(s, 40, o),
                e_flags: dec32(s, 48, o),
                e_ehsize: dec16(s, 52, o),
                e_phentsize: dec16(s, 54, o),
                e_phnum: dec16(s, 56, o),
                e_shentsize: dec16(s, 58, o),
                e_shnum: dec16(s, 60, o),
                e_shstrndx: dec16(s, 62, o),
            },
        )
    }
}

/// `prefix` followed by the fields of `h` in byte order `o`.
pub open spec fn append_header32(prefix: Seq<u8>, h: elf32_ehdr, o: ByteOrder) -> Seq<u8> {
    prefix + enc16(h.e_type, o) + enc16(h.e_machine, o) + enc32(h.e_version, o) + enc32(h.e_entry, o)
        + enc32(h.e_phoff, o) + enc32(h.e_shoff, o) + enc32(h.e_flags, o) + enc16(h.e_ehsize, o)
        + enc16(h.e_phentsize, o) + enc16(h.e_phnum, o) + enc16(h.e_shentsize, o) + enc16(
        h.e_shnum,
        o,
    ) + enc16(h.e_shstrndx, o)
}

/// `prefix` followed by the fields of `h` in byte order `o`.
pub open spec fn append_header64(prefix: Seq<u8>, h: elf64_ehdr, o: ByteOrder) -> Seq<u8> {
    prefix + enc16(h.e_type, o) + enc16(h.e_machine, o) + enc32(h.e_version, o) + enc64(h.e_entry, o)
        + enc64(h.e_phoff, o) + enc64(h.e_shoff, o) + enc32(h.e_flags, o) + enc16(h.e_ehsize, o)
        + enc16(h.e_phentsize, o) + enc16(h.e_phnum, o) + enc16(h.e_shentsize, o) + enc16(
        h.e_shnum,
        o,
    ) + enc16(h.e_shstrndx, o)
}

impl elf32_ehdr {
    /// A header with no type and no machine, current version, the 32-bit header size and
    /// every other field zero.
    pub fn new() -> (r: Self)
        ensures
            r == (elf32_ehdr {
                e_type: 0,
                e_machine: 0,
                e_version: EV_CURRENT,
                e_entry: 0,
                e_phoff: 0,
                e_shoff: 0,
                e_flags: 0,
                e_ehsize: EHDR32_SIZE as u16,
                e_phentsize: 0,
                e_phnum: 0,
                e_shentsize: 0,
                e_shnum: 0,
                e_shstrndx: 0,
            }),
    {
        elf32_ehdr {
            e_type: 0,
            e_machine: 0,
            e_version: EV_CURRENT,
            e_entry: 0,
            e_phoff: 0,
            e_shoff: 0,
            e_flags: 0,
            e_ehsize: EHDR32_SIZE as u16,
            e_phentsize: 0,
            e_phnum: 0,
            e_shentsize: 0,
            e_shnum: 0,
            e_shstrndx: 0,
        }
    }

    /// Decodes the 32-bit header that follows the identification block at the start of `b`.
    pub fn decode(b: &[u8], o: ByteOrder) -> (r: Result<Self, DecodeError>)
        ensures
            r == spec_decode32(b@, o),
    {
        let e_type = match read_u16(b, 16, o, Field::Type) { Ok(v) => v, Err(e) => return Err(e) };
        let e_machine = match read_u16(b, 18, o, Field::Machine) { Ok(v) => v, Err(e) => return Err(e) };
        let e_version = match read_u32(b, 20, o, Field::Version) { Ok(v) => v, Err(e) => return Err(e) };
        let e_entry = match read_u32(b, 24, o, Field::Entry) { Ok(v) => v, Err(e) => return Err(e) };
        let e_phoff = match read_u32(b, 28, o, Field::PhOff) { Ok(v) => v, Err(e) => return Err(e) };
        let e_shoff = match read_u32(b, 32, o, Field::ShOff) { Ok(v) => v, Err(e) => return Err(e) };
        let e_flags = match read_u32(b, 36, o, Field::Flags) { Ok(v) => v, Err(e) => return Err(e) };
        let e_ehsize = match read_u16(b, 40, o, Field::EhSize) { Ok(v) => v, Err(e) => return Err(e) };
        let e_phentsize = match read_u16(b, 42, o, Field::PhEntSize) { Ok(v) => v, Err(e) => return Err(e) };
        let e_phnum = match read_u16(b, 44, o, Field::PhNum) { Ok(v) => v, Err(e) => return Err(e) };
        let e_shentsize = match read_u16(b, 46, o, Field::ShEntSize) { Ok(v) => v, Err(e) => return Err(e) };
        let e_shnum = match read_u16(b, 48, o, Field::ShNum) { Ok(v) => v, Err(e) => return Err(e) };
        let e_shstrndx = match read_u16(b, 50, o, Field::ShStrNdx) { Ok(v) => v, Err(e) => return Err(e) };
        Ok(elf32_ehdr {
            e_type,
            e_machine,
            e_version,
            e_entry,
            e_phoff,
            e_shoff,
            e_flags,
            e_ehsize,
            e_phentsize,
            e_phnum,
            e_shentsize,
            e_shnum,
            e_shstrndx,
        })
    }

    /// Appends the fields of this header in byte order `o`.
    pub fn write(&self, out: &mut Vec<u8>, o: ByteOrder)
        ensures
            final(out)@ == append_header32(old(out)@, *self, o),
    {
        write_u16(out, self.e_type, o);
        write_u16(out, self.e_machine, o);
        write_u32(out, self.e_version, o);
        write_u32(out, self.e_entry, o);
        write_u32(out, self.e_phoff, o);
        write_u32(out, self.e_shoff, o);
        write_u32(out, self.e_flags, o);
        write_u16(out, self.e_ehsize, o);
        write_u16(out, self.e_phentsize, o);
        write_u16(out, self.e_phnum, o);
        write_u16(out, self.e_shentsize, o);
        write_u16(out, self.e_shnum, o);
        write_u16(out, self.e_shstrndx, o);
    }
}

impl elf64_ehdr {
    /// A header with no type and no machine, current version, the 64-bit header size and
    /// every other field zero.
    pub fn new() -> (r: Self)
        ensures
            r == (elf64_ehdr {
                e_type: 0,
                e_machine: 0,
                e_version: EV_CURRENT,
                e_entry: 0,
                e_phoff: 0,
                e_shoff: 0,
                e_flags: 0,
                e_ehsize: EHDR64_SIZE as u16,
                e_phentsize: 0,
                e_phnum: 0,
                e_shentsize: 0,
                e_shnum: 0,
                e_shstrndx: 0,
            }),
    {
        elf64_ehdr {
            e_type: 0,
            e_machine: 0,
            e_version: EV_CURRENT,
            e_entry: 0,
            e_phoff: 0,
            e_shoff: 0,
            e_flags: 0,
            e_ehsize: EHDR64_SIZE as u16,
            e_phentsize: 0,
            e_phnum: 0,
            e_shentsize: 0,
            e_shnum: 0,
            e_shstrndx: 0,
        }
    }

    /// Decodes the 64-bit header that follows the identification block at the start of `b`.
    pub fn decode(b: &[u8], o: ByteOrder) -> (r: Result<Self, DecodeError>)
        ensures
            r == spec_decode64(b@, o),
    {
        let e_type = match read_u16(b, 16, o, Field::Type) { Ok(v) => v, Err(e) => return Err(e) };
        let e_machine = match read_u16(b, 18, o, Field::Machine) { Ok(v) => v, Err(e) => return Err(e) };
        let e_version = match read_u32(b, 20, o, Field::Version) { Ok(v) => v, Err(e) => return Err(e) };
        let e_entry = match read_u64(b, 24, o, Field::Entry) { Ok(v) => v, Err(e) => return Err(e) };
        let e_phoff = match read_u64(b, 32, o, Field::PhOff) { Ok(v) => v, Err(e) => return Err(e) };
        let e_shoff = match read_u64(b, 40, o, Field::ShOff) { Ok(v) => v, Err(e) => return Err(e) };
        let e_flags = match read_u32(b, 48, o, Field::Flags) { Ok(v) => v, Err(e) => return Err(e) };
        let e_ehsize = match read_u16(b, 52, o, Field::EhSize) { Ok(v) => v, Err(e) => return Err(e) };
        let e_phentsize = match read_u16(b, 54, o, Field::PhEntSize) { Ok(v) => v, Err(e) => return Err(e) };
        let e_phnum = match read_u16(b, 56, o, Field::PhNum) { Ok(v) => v, Err(e) => return Err(e) };
        let e_shentsize = match read_u16(b, 58, o, Field::ShEntSize) { Ok(v) => v, Err(e) => return Err(e) };
        let e_shnum = match read_u16(b, 60, o, Field::ShNum) { Ok(v) => v, Err(e) => return Err(e) };
        let e_shstrndx = match read_u16(b, 62, o, Field::ShStrNdx) { Ok(v) => v, Err(e) => return Err(e) };
        Ok(elf64_ehdr {
            e_type,
            e_machine,
            e_version,
            e_entry,
            e_phoff,
            e_shoff,
            e_flags,
            e_ehsize,
            e_phentsize,
            e_phnum,
            e_shentsize,
            e_shnum,
            e_shstrndx,
        })
    }

    /// Appends the fields of this header in byte order `o`.
    pub fn write(&self, out: &mut Vec<u8>, o: ByteOrder)
        ensures
            final(out)@ == append_header64(old(out)@, *self, o),
    {
        write_u16(out, self.e_type, o);
        write_u16(out, self.e_machine, o);
        write_u32(out, self.e_version, o);
        write_u64(out, self.e_entry, o);
        write_u64(out, self.e_phoff, o);
        write_u64(out, self.e_shoff, o);
        write_u32(out, self.e_flags, o);
        write_u16(out, self.e_ehsize, o);
        write_u16(out, self.e_phentsize, o);
        write_u16(out, self.e_phnum, o);
        write_u16(out, self.e_shentsize, o);
        write_u16(out, self.e_shnum, o);
        write_u16(out, self.e_shstrndx, o);
    }
}

/// Decoding the fields that `append_header32` wrote after a sixteen-byte prefix gives them back.
pub proof fn lemma_decode32_append(p: Seq<u8>, h: elf32_ehdr, o: ByteOrder)
    requires
        p.len() == IDENT_LEN,
        o != ByteOrder::DataNone,
    ensures
        spec_decode32(append_header32(p, h, o), o) == Ok::<elf32_ehdr, DecodeError>(h),
{
    let s = append_header32(p, h, o);
    assert(s.len() == EHDR32_SIZE);
    assert(s.subrange(16, 18) =~= enc16(h.e_type, o));
    assert(s.subrange(18, 20) =~= enc16(h.e_machine, o));
    assert(s.subrange(20, 24) =~= enc32(h.e_version, o));
    assert(s.subrange(24, 28) =~= enc32(h.e_entry, o));
    assert(s.subrange(28, 32) =~= enc32(h.e_phoff, o));
    assert(s.subrange(32, 36) =~= enc32(h.e_shoff, o));
    assert(s.subrange(36, 40) =~= enc32(h.e_flags, o));
    assert(s.subrange(40, 42) =~= enc16(h.e_ehsize, o));
    assert(s.subrange(42, 44) =~= enc16(h.e_phentsize, o));
    assert(s.subrange(44, 46) =~= enc16(h.e_phnum, o));
    assert(s.subrange(46, 48) =~= enc16(h.e_shentsize, o));
    assert(s.subrange(48, 50) =~= enc16(h.e_shnum, o));
    assert(s.subrange(50, 52) =~= enc16(h.e_shstrndx, o));
    lemma_dec16_enc16(s, 16, h.e_type, o);
    lemma_dec16_enc16(s, 18, h.e_machine, o);
    lemma_dec32_enc32(s, 20, h.e_version, o);
    lemma_dec32_enc32(s, 24, h.e_entry, o);
    lemma_dec32_enc32(s, 28, h.e_phoff, o);
    lemma_dec32_enc32(s, 32, h.e_shoff, o);
    lemma_dec32_enc32(s, 36, h.e_flags, o);
    lemma_dec16_enc16(s, 40, h.e_ehsize, o);
    lemma_dec16_enc16(s, 42, h.e_phentsize, o);
    lemma_dec16_enc16(s, 44, h.e_phnum, o);
    lemma_dec16_enc16(s, 46, h.e_shentsize, o);
    lemma_dec16_enc16(s, 48, h.e_shnum, o);
    lemma_dec16_enc16(s, 50, h.e_shstrndx, o);
}

/// Decoding the fields that `append_header64` wrote after a sixteen-byte prefix gives them back.
pub proof fn lemma_decode64_append(p: Seq<u8>, h: elf64_ehdr, o: ByteOrder)
    requires
        p.len() == IDENT_LEN,
        o != ByteOrder::DataNone,
    ensures
        spec_decode64(append_header64(p, h, o), o) == Ok::<elf64_ehdr, DecodeError>(h),
{
    let s = append_header64(p, h, o);
    assert(s.len() == EHDR64_SIZE);
    assert(s.subrange(16, 18) =~= enc16(h.e_type, o));
    assert(s.subrange(18, 20) =~= enc16(h.e_machine, o));
    assert(s.subrange(20, 24) =~= enc32(h.e_version, o));
    assert(s.subrange(24, 32) =~= enc64(h.e_entry, o));
    assert(s.subrange(32, 40) =~= enc64(h.e_phoff, o));
    assert(s.subrange(40, 48) =~= enc64(h.e_shoff, o));
    assert(s.subrange(48, 52) =~= enc32(h.e_flags, o));
    assert(s.subrange(52, 54) =~= enc16(h.e_ehsize, o));
    assert(s.subrange(54, 56) =~= enc16(h.e_phentsize, o));
    assert(s.subrange(56, 58) =~= enc16(h.e_phnum, o));
    assert(s.subrange(58, 60) =~= enc16(h.e_shentsize, o));
    assert(s.subrange(60, 62) =~= enc16(h.e_shnum, o));
    assert(s.subrange(62, 64) =~= enc16(h.e_shstrndx, o));
    lemma_dec16_enc16(s, 16, h.e_type, o);
    lemma_dec16_enc16(s, 18, h.e_machine, o);
    lemma_dec32_enc32(s, 20, h.e_version, o);
    lemma_dec64_enc64(s, 24, h.e_entry, o);
    lemma_dec64_enc64(s, 32, h.e_phoff, o);
    lemma_dec64_enc64(s, 40, h.e_shoff, o);
    lemma_dec32_enc32(s, 48, h.e_flags, o);
    lemma_dec16_enc16(s, 52, h.e_ehsize, o);
    lemma_dec16_enc16(s, 54, h.e_phentsize, o);
    lemma_dec16_enc16(s, 56, h.e_phnum, o);
    lemma_dec16_enc16(s, 58, h.e_shentsize, o);
    lemma_dec16_enc16(s, 60, h.e_shnum, o);
    lemma_dec16_enc16(s, 62, h.e_shstrndx, o);
}

} // verus!
