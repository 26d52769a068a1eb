use crate::catalog::{
    byte_order_name, class_name, file_type_name, machine_name, spec_byte_order_name,
    spec_class_name, spec_machine_name, spec_type_name, spec_version_name, version_name,
    ByteOrder, Class,
};
use crate::error::{DecodeError, Field};
use crate::header::{
    append_header32, append_header64, elf32_ehdr, elf64_ehdr, spec_decode32, spec_decode64,
    EHDR32_SIZE, EHDR64_SIZE, EV_CURRENT,
};
use crate::ident::{
    ident_bytes, spec_decode_ident, Identification, CURRENT_VERSION, IDENT_LEN,
};
use crate::text::{decimal, push_line, push_number_line, with_line};
use vstd::prelude::*;

verus! {

/// A decoded file header of either class.
#[allow(non_camel_case_types)]
#[derive(Clone, Copy, Debug, PartialEq, Eq, Structural)]
pub enum elf {
    ELF32(elf32_ehdr),
    ELF64(elf64_ehdr),
}

/// A decoded identification block together with the file header it introduces.
#[allow(non_camel_case_types)]
#[derive(Clone, Copy, Debug, PartialEq, Eq, Structural)]
pub struct elf_ehdr {
    pub ident: Identification,
    pub header: elf,
}

/// What decoding the start of `s` gives: the identification block, then the header of
/// the class it names, in the byte order it names.
pub open spec fn spec_open(s: Seq<u8>) -> Result<elf_ehdr, DecodeError> {
    match spec_decode_ident(s) {
        Err(e) => Err(e),
        Ok(ident) => match ident.class {
            Class::ClassNone => Err(DecodeError::UnknownClass(0)),
            Class::Elf32 => match spec_decode32(s, ident.data) {
                Err(e) => Err(e),
                Ok(h) => Ok(elf_ehdr { ident, header: elf::ELF32(h) }),
            },
            Class::Elf64 => match spec_decode64(s, ident.data) {
                Err(e) => Err(e),
                Ok(h) => Ok(elf_ehdr { ident, header: elf::ELF64(h) }),
            },
        },
    }
}

/// The mismatch reported when `actual` differs from `expected`, if it does.
pub open spec fn mismatch(f: Field, expected: u64, actual: u64) -> Seq<DecodeError> {
    if expected == actual {
        Seq::empty()
    } else {
        seq![DecodeError::StructuralMismatch(f, expected, actual)]
    }
}

impl elf_ehdr {
    /// The class names the variant of the header, and the byte order is set.
    pub open spec fn wf(&self) -> bool {
        &&& self.ident.data != ByteOrder::DataNone
        &&& match self.header {
            elf::ELF32(_) => self.ident.class == Class::Elf32,
            elf::ELF64(_) => self.ident.class == Class::Elf64,
        }
    }

    /// The bytes that encode this header, identification first, with zeroed padding.
    pub open spec fn spec_bytes(&self) -> Seq<u8> {
        match self.header {
            elf::ELF32(h) => append_header32(ident_bytes(self.ident), h, self.ident.data),
            elf::ELF64(h) => append_header64(ident_bytes(self.ident), h, self.ident.data),
        }
    }

    pub open spec fn spec_file_type(&self) -> u16 {
        match self.header {
            elf::ELF32(h) => h.e_type,
            elf::ELF64(h) => h.e_type,
        }
    }

    pub open spec fn spec_machine(&self) -> u16 {
        match self.header {
            elf::ELF32(h) => h.e_machine,
            elf::ELF64(h) => h.e_machine,
        }
    }

    pub open spec fn spec_version(&self) -> u32 {
        match self.header {
            elf::ELF32(h) => h.e_version,
            elf::ELF64(h) => h.e_version,
        }
    }

    pub open spec fn spec_entry(&self) -> u64 {
        match self.header {
            elf::ELF32(h) => h.e_entry as u64,
            elf::ELF64(h) => h.e_entry,
        }
    }

    pub open spec fn spec_ph_offset(&self) -> u64 {
        match self.header {
            elf::ELF32(h) => h.e_phoff as u64,
            elf::ELF64(h) => h.e_phoff,
        }
    }

    pub open spec fn spec_sh_offset(&self) -> u64 {
        match self.header {
            elf::ELF32(h) => h.e_shoff as u64,
            elf::ELF64(h) => h.e_shoff,
        }
    }

    pub open spec fn spec_flags(&self) -> u32 {
        match self.header {
            elf::ELF32(h) => h.e_flags,
            elf::ELF64(h) => h.e_flags,
        }
    }

    pub open spec fn spec_header_size(&self) -> u16 {
        match self.header {
            elf::ELF32(h) => h.e_ehsize,
            elf::ELF64(h) => h.e_ehsize,
        }
    }

    pub open spec fn spec_ph_entry_size(&self) -> u16 {
        match self.header {
            elf::ELF32(h) => h.e_phentsize,
            elf::ELF64(h) => h.e_phentsize,
        }
    }

    pub open spec fn spec_ph_count(&self) -> u16 {
        match self.header {
            elf::ELF32(h) => h.e_phnum,
            elf::ELF64(h) => h.e_phnum,
        }
    }

    pub open spec fn spec_sh_entry_size(&self) -> u16 {
        match self.header {
            elf::ELF32(h) => h.e_shentsize,
            elf::ELF64(h) => h.e_shentsize,
        }
    }

    pub open spec fn spec_sh_count(&self) -> u16 {
        match self.header {
            elf::ELF32(h) => h.e_shnum,
            elf::ELF64(h) => h.e_shnum,
        }
    }

    pub open spec fn spec_sh_str_index(&self) -> u16 {
        match self.header {
            elf::ELF32(h) => h.e_shstrndx,
            elf::ELF64(h) => h.e_shstrndx,
        }
    }

    /// The header size that the class of this header calls for.
    pub open spec fn expected_header_size(&self) -> u16 {
        match self.header {
            elf::ELF32(_) => EHDR32_SIZE as u16,
            elf::ELF64(_) => EHDR64_SIZE as u16,
        }
    }

    /// Self-describing fields that disagree with the structure, in field order.
    pub open spec fn spec_mismatches(&self) -> Seq<DecodeError> {
        mismatch(Field::IdentVersion, CURRENT_VERSION as u64, self.ident.version as u64)
            + mismatch(Field::IdentSize, IDENT_LEN as u64, self.ident.size as u64)
            + mismatch(Field::Version, EV_CURRENT as u64, self.spec_version() as u64)
            + mismatch(
            Field::EhSize,
            self.expected_header_size() as u64,
            self.spec_header_size() as u64,
        )
    }

    /// The canonical text: one line per field, in a fixed order.
    pub open spec fn spec_render(&self) -> Seq<char> {
        let s = with_line(Seq::empty(), "Class: "@, spec_class_name(self.ident.class));
        let s = with_line(s, "Endian: "@, spec_byte_order_name(self.ident.data));
        let s = with_line(s, "Type: "@, spec_type_name(self.spec_file_type()));
        let s = with_line(s, "Machine: "@, spec_machine_name(self.spec_machine()));
        let s = with_line(s, "Version: "@, spec_version_name(self.spec_version()));
        let s = with_line(s, "Entry: "@, decimal(self.spec_entry() as nat));
        let s = with_line(s, "Program Header Offset: "@, decimal(self.spec_ph_offset() as nat));
        let s = with_line(s, "Section Header Offset: "@, decimal(self.spec_sh_offset() as nat));
        let s = with_line(s, "Flags: "@, decimal(self.spec_flags() as nat));
        let s = with_line(s, "ELF header size: "@, decimal(self.spec_header_size() as nat));
        let s = with_line(
            s,
            "Program Header entry size: "@,
            decimal(self.spec_ph_entry_size() as nat),
        );
        let s = with_line(s, "Program Header count: "@, decimal(self.spec_ph_count() as nat));
        let s = with_line(
            s,
            "Section Header entry size: "@,
            decimal(self.spec_sh_entry_size() as nat),
        );
        let s = with_line(s, "Section Header count: "@, decimal(self.spec_sh_count() as nat));
        with_line(
            s,
            "Section Header String Table Index: "@,
            decimal(self.spec_sh_str_index() as nat),
        )
    }

    /// Decodes the identification block and the file header at the start of `bytes`.
    pub fn open(bytes: &[u8]) -> (r: Result<elf_ehdr, DecodeError>)
        ensures
            r == spec_open(bytes@),
            r is Ok ==> r->Ok_0.wf(),
    {
        let ident = match Identification::decode(bytes) {
            Ok(id) => id,
            Err(e) => return Err(e),
        };
        match ident.class {
            Class::ClassNone => Err(DecodeError::UnknownClass(0)),
            Class::Elf32 => match elf32_ehdr::decode(bytes, ident.data) {
                Ok(h) => Ok(elf_ehdr { ident, header: elf::ELF32(h) }),
                Err(e) => Err(e),
            },
            Class::Elf64 => match elf64_ehdr::decode(bytes, ident.data) {
                Ok(h) => Ok(elf_ehdr { ident, header: elf::ELF64(h) }),
                Err(e) => Err(e),
            },
        }
    }

    /// Encodes this header, identification first, with zeroed padding.
    pub fn to_bytes(&self) -> (r: Vec<u8>)
        ensures
            r@ == self.spec_bytes(),
    {
        let mut out: Vec<u8> = Vec::new();
        self.ident.write(&mut out);
        assert(out@ =~= ident_bytes(self.ident));
        match &self.header {
            elf::ELF32(h) => h.write(&mut out, self.ident.data),
            elf::ELF64(h) => h.write(&mut out, self.ident.data),
        }
        out
    }

    /// Self-describing fields that disagree with the structure: identification version and
    /// size, object version, and declared header size. None of them stops decoding.
    pub fn mismatches(&self) -> (r: Vec<DecodeError>)
        ensures
            r@ == self.spec_mismatches(),
    {
        let mut r: Vec<DecodeError> = Vec::new();
        if self.ident.version != CURRENT_VERSION {
            r.push(
                DecodeError::StructuralMismatch(
                    Field::IdentVersion,
                    CURRENT_VERSION as u64,
                    self.ident.version as u64,
                ),
            );
        }
        if self.ident.size as usize != IDENT_LEN {
            r.push(
                DecodeError::StructuralMismatch(
                    Field::IdentSize,
                    IDENT_LEN as u64,
                    self.ident.size as u64,
                ),
            );
        }
        let version = self.version();
        if version != EV_CURRENT {
            r.push(
                DecodeError::StructuralMismatch(Field::Version, EV_CURRENT as u64, version as u64),
            );
        }
        let expected: u16 = if self.is_64() {
            EHDR64_SIZE as u16
        } else {
            EHDR32_SIZE as u16
        };
        let actual = self.header_size();
        if actual != expected {
            r.push(DecodeError::StructuralMismatch(Field::EhSize, expected as u64, actual as u64));
        }
        assert(r@ =~= self.spec_mismatches());
        r
    }

    /// Decodes as `open` does, then also fails on the first structural mismatch.
    pub fn open_strict(bytes: &[u8]) -> (r: Result<elf_ehdr, DecodeError>)
        ensures
            match spec_open(bytes@) {
                Err(e) => r == Err::<elf_ehdr, DecodeError>(e),
                Ok(h) => if h.spec_mismatches().len() == 0 {
                    r == Ok::<elf_ehdr, DecodeError>(h)
                } else {
                    r == Err::<elf_ehdr, DecodeError>(h.spec_mismatches()[0])
                },
            },
    {
        let h = match elf_ehdr::open(bytes) {
            Ok(h) => h,
            Err(e) => return Err(e),
        };
        let m = h.mismatches();
        if m.len() == 0 {
            Ok(h)
        } else {
            Err(m[0])
        }
    }

    /// The canonical text of this header: one line per field, in a fixed order, the same
    /// for both classes. Never fails: unknown codes get a fallback name.
    pub fn render(&self) -> (r: String)
        ensures
            r@ == self.spec_render(),
    {
        let mut s = String::new();
        push_line(&mut s, "Class: ", class_name(self.ident.class));
        push_line(&mut s, "Endian: ", byte_order_name(self.ident.data));
        push_line(&mut s, "Type: ", file_type_name(self.file_type()));
        push_line(&mut s, "Machine: ", machine_name(self.machine()));
        push_line(&mut s, "Version: ", version_name(self.version()));
        push_number_line(&mut s, "Entry: ", self.entry());
        push_number_line(&mut s, "Program Header Offset: ", self.ph_offset());
        push_number_line(&mut s, "Section Header Offset: ", self.sh_offset());
        push_number_line(&mut s, "Flags: ", self.flags() as u64);
        push_number_line(&mut s, "ELF header size: ", self.header_size() as u64);
        push_number_line(&mut s, "Program Header entry size: ", self.ph_entry_size() as u64);
        push_number_line(&mut s, "Program Header count: ", self.ph_count() as u64);
        push_number_line(&mut s, "Section Header entry size: ", self.sh_entry_size() as u64);
        push_number_line(&mut s, "Section Header count: ", self.sh_count() as u64);
        push_number_line(
            &mut s,
            "Section Header String Table Index: ",
            self.sh_str_index() as u64,
        );
        s
    }

    /// Whether this is a 64-bit object.
    pub fn is_64(&self) -> (r: bool)
        ensures
            r == (self.header is ELF64),
    {
        match self.header {
            elf::ELF32(_) => false,
            elf::ELF64(_) => true,
        }
    }

    /// The class named by the identification block.
    pub fn class(&self) -> (r: Class)
        ensures
            r == self.ident.class,
    {
        self.ident.class
    }

    /// The byte order named by the identification block.
    pub fn byte_order(&self) -> (r: ByteOrder)
        ensures
            r == self.ident.data,
    {
        self.ident.data
    }

    /// The file type code.
    pub fn file_type(&self) -> (r: u16)
        ensures
            r == self.spec_file_type(),
    {
        match self.header {
            elf::ELF32(h) => h.e_type,
            elf::ELF64(h) => h.e_type,
        }
    }

    /// The machine architecture code.
    pub fn machine(&self) -> (r: u16)
        ensures
            r == self.spec_machine(),
    {
        match self.header {
            elf::ELF32(h) => h.e_machine,
            elf::ELF64(h) => h.e_machine,
        }
    }

    /// The object file version.
    pub fn version(&self) -> (r: u32)
        ensures
            r == self.spec_version(),
    {
        match self.header {
            elf::ELF32(h) => h.e_version,
            elf::ELF64(h) => h.e_version,
        }
    }

    /// The entry point address, widened to 64 bits.
    pub fn entry(&self) -> (r: u64)
        ensures
            r == self.spec_entry(),
    {
        match self.header {
            elf::ELF32(h) => h.e_entry as u64,
            elf::ELF64(h) => h.e_entry,
        }
    }

    /// The program header table offset, widened to 64 bits; zero when there is none.
    pub fn ph_offset(&self) -> (r: u64)
        ensures
            r == self.spec_ph_offset(),
    {
        match self.header {
            elf::ELF32(h) => h.e_phoff as u64,
            elf::ELF64(h) => h.e_phoff,
        }
    }

    /// The section header table offset, widened to 64 bits; zero when there is none.
    pub fn sh_offset(&self) -> (r: u64)
        ensures
            r == self.spec_sh_offset(),
    {
        match self.header {
            elf::ELF32(h) => h.e_shoff as u64,
            elf::ELF64(h) => h.e_shoff,
        }
    }

    /// The processor-specific flags.
    pub fn flags(&self) -> (r: u32)
        ensures
            r == self.spec_flags(),
    {
        match self.header {
            elf::ELF32(h) => h.e_flags,
            elf::ELF64(h) => h.e_flags,
        }
    }

    /// The declared size of the file header.
    pub fn header_size(&self) -> (r: u16)
        ensures
            r == self.spec_header_size(),
    {
        match self.header {
            elf::ELF32(h) => h.e_ehsize,
            elf::ELF64(h) => h.e_ehsize,
        }
    }

    /// The size of one program header table entry.
    pub fn ph_entry_size(&self) -> (r: u16)
        ensures
            r == self.spec_ph_entry_size(),
    {
        match self.header {
            elf::ELF32(h) => h.e_phentsize,
            elf::ELF64(h) => h.e_phentsize,
        }
    }

    /// The number of program header table entries.
    pub fn ph_count(&self) -> (r: u16)
        ensures
            r == self.spec_ph_count(),
    {
        match self.header {
            elf::ELF32(h) => h.e_phnum,
            elf::ELF64(h) => h.e_phnum,
        }
    }

    /// The size of one section header table entry.
    pub fn sh_entry_size(&self) -> (r: u16)
        ensures
            r == self.spec_sh_entry_size(),
    {
        match self.header {
            elf::ELF32(h) => h.e_shentsize,
            elf::ELF64(h) => h.e_shentsize,
        }
    }

    /// The number of section header table entries.
    pub fn sh_count(&self) -> (r: u16)
        ensures
            r == self.spec_sh_count(),
    {
        match self.header {
            elf::ELF32(h) => h.e_shnum,
            elf::ELF64(h) => h.e_shnum,
        }
    }

    /// The section header table index of the section name string table.
    pub fn sh_str_index(&self) -> (r: u16)
        ensures
            r == self.spec_sh_str_index(),
    {
        match self.header {
            elf::ELF32(h) => h.e_shstrndx,
            elf::ELF64(h) => h.e_shstrndx,
        }
    }
}

} // verus!
