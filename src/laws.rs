use crate::catalog::{
    spec_machine_name, ByteOrder, Class, MACHINE_RESERVED_HI, MACHINE_RESERVED_LO,
};
use crate::facade::{elf, elf_ehdr, spec_open};
use crate::error::{DecodeError, Field};
use crate::header::{lemma_decode32_append, lemma_decode64_append, EHDR32_SIZE, EHDR64_SIZE};
use crate::ident::{has_magic, ident_bytes, spec_decode_ident, IDENT_LEN};
use vstd::prelude::*;

verus! {

/// Encoding a well-formed header, of either class and in either byte order, and decoding
/// the bytes gives the same header back.
pub proof fn lemma_open_to_bytes(h: elf_ehdr)
    requires
        h.wf(),
    ensures
        spec_open(h.spec_bytes()) == Ok::<elf_ehdr, DecodeError>(h),
{
    let s = h.spec_bytes();
    let p = ident_bytes(h.ident);
    assert(s.subrange(0, 16) =~= p);
    assert(s[0] == p[0] && s[1] == p[1] && s[2] == p[2] && s[3] == p[3]);
    assert(s[4] == p[4] && s[5] == p[5] && s[6] == p[6] && s[15] == p[15]);
    assert(spec_decode_ident(s) == Ok::<_, DecodeError>(h.ident));
    match h.header {
        elf::ELF32(x) => lemma_decode32_append(p, x, h.ident.data),
        elf::ELF64(x) => lemma_decode64_append(p, x, h.ident.data),
    }
}

/// A buffer that holds an identification block but does not start with the magic
/// fails with `InvalidMagic`, whatever follows.
pub proof fn lemma_bad_magic(s: Seq<u8>)
    requires
        s.len() >= IDENT_LEN,
        !has_magic(s),
    ensures
        spec_open(s) == Err::<elf_ehdr, DecodeError>(DecodeError::InvalidMagic),
{
}

/// A buffer too short for the identification block fails with `Truncated`, naming it.
pub proof fn lemma_short_ident(s: Seq<u8>)
    requires
        s.len() < IDENT_LEN,
    ensures
        spec_open(s) == Err::<elf_ehdr, DecodeError>(DecodeError::Truncated(Field::Ident)),
{
}

/// An identification of a class, with its byte order set, followed by fewer bytes than
/// that class's header needs, fails with `Truncated`.
pub proof fn lemma_short_header(s: Seq<u8>)
    requires
        spec_decode_ident(s) is Ok,
        spec_decode_ident(s)->Ok_0.data != ByteOrder::DataNone,
        spec_decode_ident(s)->Ok_0.class == Class::Elf32 ==> s.len() < EHDR32_SIZE,
        spec_decode_ident(s)->Ok_0.class == Class::Elf64 ==> s.len() < EHDR64_SIZE,
        spec_decode_ident(s)->Ok_0.class != Class::ClassNone,
    ensures
        spec_open(s) matches Err(DecodeError::Truncated(_)),
{
}

/// A class byte that names no class fails decoding with `UnknownClass`, whatever follows;
/// an unset class in an otherwise valid identification fails the same way as soon as a
/// header is asked for: no layout is guessed.
pub proof fn lemma_unknown_class(s: Seq<u8>)
    requires
        s.len() >= IDENT_LEN,
        has_magic(s),
        s[4] != 1 && s[4] != 2,
    ensures
        s[4] != 0 ==> spec_open(s) == Err::<elf_ehdr, DecodeError>(DecodeError::UnknownClass(s[4])),
        s[4] == 0 && s[5] <= 2 ==> spec_open(s) == Err::<elf_ehdr, DecodeError>(
            DecodeError::UnknownClass(0),
        ),
{
}

/// Whatever machine code a complete header holds, it decodes; a code in the reserved range
/// is named as reserved, and one outside both the table and that range as unknown.
pub proof fn lemma_any_machine_decodes(s: Seq<u8>)
    requires
        s.len() >= IDENT_LEN,
        has_magic(s),
        s[4] == 1 || s[4] == 2,
        s[5] == 1 || s[5] == 2,
        s[4] == 1 ==> s.len() >= EHDR32_SIZE,
        s[4] == 2 ==> s.len() >= EHDR64_SIZE,
    ensures
        spec_open(s) is Ok,
        ({
            let m = spec_open(s)->Ok_0.spec_machine();
            &&& MACHINE_RESERVED_LO <= m <= MACHINE_RESERVED_HI ==> spec_machine_name(m)
                == "Reserved for future use"@
            &&& m > MACHINE_RESERVED_HI ==> spec_machine_name(m) == "Unknown"@
        }),
{
}

} // verus!
