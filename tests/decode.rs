use elfhdr::catalog::{byte_order_name, class_name, file_type_name, machine_name, version_name};
use elfhdr::codec::{read_u16, read_u32, read_u64, write_u16, write_u32, write_u64};
use elfhdr::{
    elf, elf32_ehdr, elf64_ehdr, elf_ehdr, ByteOrder, Class, DecodeError, Field, Identification,
};

fn ident(class: u8, data: u8) -> Vec<u8> {
    let mut b = vec![0x7f, 0x45, 0x4c, 0x46, class, data, 1];
    b.extend(std::iter::repeat(0u8).take(9));
    b
}

fn intel_exec_32() -> Vec<u8> {
    let mut b = ident(1, 1);
    b.extend(std::iter::repeat(0u8).take(36));
    b[16] = 2;
    b[18] = 3;
    b
}

fn sample32() -> elf32_ehdr {
    elf32_ehdr {
        e_type: 3,
        e_machine: 8,
        e_version: 1,
        e_entry: 0x0804_8000,
        e_phoff: 52,
        e_shoff: 0x1234_5678,
        e_flags: 0xdead_beef,
        e_ehsize: 52,
        e_phentsize: 32,
        e_phnum: 9,
        e_shentsize: 40,
        e_shnum: 30,
        e_shstrndx: 29,
    }
}

fn sample64() -> elf64_ehdr {
    elf64_ehdr {
        e_type: 2,
        e_machine: 62,
        e_version: 1,
        e_entry: 0x0011_2233_4455_6677,
        e_phoff: 64,
        e_shoff: 0xfedc_ba98_7654_3210,
        e_flags: 7,
        e_ehsize: 64,
        e_phentsize: 56,
        e_phnum: 13,
        e_shentsize: 64,
        e_shnum: 31,
        e_shstrndx: 30,
    }
}

#[test]
fn intel_executable_scenario() {
    let h = elf_ehdr::open(&intel_exec_32()).unwrap();
    assert_eq!(h.class(), Class::Elf32);
    assert_eq!(h.byte_order(), ByteOrder::LittleEndian);
    assert_eq!(h.file_type(), 2);
    assert_eq!(h.machine(), 3);
    assert_eq!(h.entry(), 0);
    assert!(!h.is_64());
    let text = h.render();
    assert!(text.starts_with("Class: ELF32\nEndian: Little Endian\n"));
    assert!(text.contains("Type: Executable file\n"));
    assert!(text.contains("Machine: Intel Architecture\n"));
    assert!(text.contains("Entry: 0\n"));
}

#[test]
fn render_full_text() {
    let h = elf_ehdr::open(&intel_exec_32()).unwrap();
    let want = "Class: ELF32\n\
Endian: Little Endian\n\
Type: Executable file\n\
Machine: Intel Architecture\n\
Version: Invalid version\n\
Entry: 0\n\
Program Header Offset: 0\n\
Section Header Offset: 0\n\
Flags: 0\n\
ELF header size: 0\n\
Program Header entry size: 0\n\
Program Header count: 0\n\
Section Header entry size: 0\n\
Section Header count: 0\n\
Section Header String Table Index: 0\n";
    assert_eq!(h.render(), want);
}

#[test]
fn render_64_bit_numbers() {
    let h = elf_ehdr {
        ident: Identification::new(Class::Elf64, ByteOrder::BigEndian),
        header: elf::ELF64(sample64()),
    };
    let text = h.render();
    assert!(text.starts_with("Class: ELF64\nEndian: Big Endian\nType: Executable file\nMachine: Unknown\nVersion: Current version\n"));
    assert!(text.contains("\nEntry: 4822678189205111\n"));
    assert!(text.contains("\nSection Header Offset: 18364758544493064720\n"));
    assert!(text.ends_with("Section Header count: 31\nSection Header String Table Index: 30\n"));
    assert_eq!(text.lines().count(), 15);
}

#[test]
fn unmapped_class_byte_fails() {
    let mut b = intel_exec_32();
    b[4] = 5;
    assert_eq!(Identification::decode(&b), Err(DecodeError::UnknownClass(5)));
    assert_eq!(elf_ehdr::open(&b), Err(DecodeError::UnknownClass(5)));
}

#[test]
fn unset_class_stops_before_header() {
    let mut b = intel_exec_32();
    b[4] = 0;
    let id = Identification::decode(&b).unwrap();
    assert_eq!(id.class, Class::ClassNone);
    assert_eq!(elf_ehdr::open(&b), Err(DecodeError::UnknownClass(0)));
    assert_eq!(elf_ehdr::open(&b[..16]), Err(DecodeError::UnknownClass(0)));
}

#[test]
fn byte_order_errors() {
    let mut b = intel_exec_32();
    b[5] = 7;
    assert_eq!(elf_ehdr::open(&b), Err(DecodeError::UnknownByteOrder(7)));
    b[5] = 0;
    assert_eq!(Identification::decode(&b).unwrap().data, ByteOrder::DataNone);
    assert_eq!(elf_ehdr::open(&b), Err(DecodeError::UnknownByteOrder(0)));
}

#[test]
fn bad_magic_whatever_follows() {
    for i in 0..4 {
        let mut b = intel_exec_32();
        b[i] ^= 0x20;
        assert_eq!(elf_ehdr::open(&b), Err(DecodeError::InvalidMagic));
    }
    let junk = vec![0xffu8; 64];
    assert_eq!(elf_ehdr::open(&junk), Err(DecodeError::InvalidMagic));
    assert_eq!(Identification::decode(&junk[..16]), Err(DecodeError::InvalidMagic));
}

#[test]
fn short_buffer_is_truncated_ident() {
    let full = intel_exec_32();
    for n in [0usize, 1, 4, 15] {
        assert_eq!(elf_ehdr::open(&full[..n]), Err(DecodeError::Truncated(Field::Ident)));
    }
}

#[test]
fn short_32_bit_header_is_truncated() {
    let full = intel_exec_32();
    assert_eq!(elf_ehdr::open(&full[..16]), Err(DecodeError::Truncated(Field::Type)));
    assert_eq!(elf_ehdr::open(&full[..30]), Err(DecodeError::Truncated(Field::PhOff)));
    assert_eq!(elf_ehdr::open(&full[..51]), Err(DecodeError::Truncated(Field::ShStrNdx)));
    assert!(elf_ehdr::open(&full[..52]).is_ok());
}

#[test]
fn short_64_bit_header_is_truncated() {
    let mut full = ident(2, 1);
    full.extend(std::iter::repeat(0u8).take(48));
    assert_eq!(elf_ehdr::open(&full[..30]), Err(DecodeError::Truncated(Field::Entry)));
    assert_eq!(elf_ehdr::open(&full[..52]), Err(DecodeError::Truncated(Field::EhSize)));
    assert_eq!(elf_ehdr::open(&full[..63]), Err(DecodeError::Truncated(Field::ShStrNdx)));
    assert!(elf_ehdr::open(&full[..64]).unwrap().is_64());
}

#[test]
fn reserved_and_unknown_machines_decode() {
    let mut b = intel_exec_32();
    b[18] = 12;
    let h = elf_ehdr::open(&b).unwrap();
    assert!(h.render().contains("Machine: Reserved for future use\n"));
    b[18] = 200;
    let h = elf_ehdr::open(&b).unwrap();
    assert!(h.render().contains("Machine: Unknown\n"));
    assert_eq!(machine_name(11), "Reserved for future use");
    assert_eq!(machine_name(16), "Reserved for future use");
    assert_eq!(machine_name(17), "Unknown");
    assert_eq!(machine_name(9), "Unknown");
}

#[test]
fn round_trip_both_classes_and_orders() {
    for data in [ByteOrder::LittleEndian, ByteOrder::BigEndian] {
        let h32 = elf_ehdr {
            ident: Identification::new(Class::Elf32, data),
            header: elf::ELF32(sample32()),
        };
        let b = h32.to_bytes();
        assert_eq!(b.len(), 52);
        assert_eq!(elf_ehdr::open(&b), Ok(h32));
        let h64 = elf_ehdr {
            ident: Identification::new(Class::Elf64, data),
            header: elf::ELF64(sample64()),
        };
        let b = h64.to_bytes();
        assert_eq!(b.len(), 64);
        assert_eq!(elf_ehdr::open(&b), Ok(h64));
    }
}

#[test]
fn big_endian_field_layout() {
    let h = elf_ehdr {
        ident: Identification::new(Class::Elf32, ByteOrder::BigEndian),
        header: elf::ELF32(sample32()),
    };
    let b = h.to_bytes();
    assert_eq!(&b[..16], &[0x7f, 0x45, 0x4c, 0x46, 1, 2, 1, 0, 0, 0, 0, 0, 0, 0, 0, 16]);
    assert_eq!(&b[16..18], &[0, 3]);
    assert_eq!(&b[24..28], &[0x08, 0x04, 0x80, 0x00]);
    let l = elf_ehdr {
        ident: Identification::new(Class::Elf32, ByteOrder::LittleEndian),
        header: elf::ELF32(sample32()),
    };
    assert_eq!(&l.to_bytes()[24..28], &[0x00, 0x80, 0x04, 0x08]);
}

#[test]
fn codec_reads_and_writes() {
    let b = [0x01u8, 0x02, 0x03, 0x04, 0x05, 0x06, 0x07, 0x08];
    assert_eq!(read_u16(&b, 0, ByteOrder::LittleEndian, Field::Type), Ok(0x0201));
    assert_eq!(read_u16(&b, 6, ByteOrder::BigEndian, Field::Type), Ok(0x0708));
    assert_eq!(read_u32(&b, 1, ByteOrder::BigEndian, Field::Flags), Ok(0x0203_0405));
    assert_eq!(read_u64(&b, 0, ByteOrder::LittleEndian, Field::Entry), Ok(0x0807_0605_0403_0201));
    assert_eq!(read_u16(&b, 7, ByteOrder::LittleEndian, Field::ShNum), Err(DecodeError::Truncated(Field::ShNum)));
    assert_eq!(read_u64(&b, 1, ByteOrder::BigEndian, Field::PhOff), Err(DecodeError::Truncated(Field::PhOff)));
    assert_eq!(read_u32(&b, 0, ByteOrder::DataNone, Field::Version), Err(DecodeError::UnknownByteOrder(0)));
    let mut out = Vec::new();
    write_u16(&mut out, 0xabcd, ByteOrder::BigEndian);
    write_u32(&mut out, 0x1122_3344, ByteOrder::LittleEndian);
    write_u64(&mut out, 0x0102_0304_0506_0708, ByteOrder::BigEndian);
    assert_eq!(out, vec![0xab, 0xcd, 0x44, 0x33, 0x22, 0x11, 1, 2, 3, 4, 5, 6, 7, 8]);
}

#[test]
fn default_headers() {
    let h = elf32_ehdr::new();
    assert_eq!(h.e_version, 1);
    assert_eq!(h.e_ehsize, 52);
    assert_eq!((h.e_type, h.e_machine, h.e_entry, h.e_shstrndx), (0, 0, 0, 0));
    let h = elf64_ehdr::new();
    assert_eq!(h.e_version, 1);
    assert_eq!(h.e_ehsize, 64);
    assert_eq!((h.e_phoff, h.e_shoff, h.e_phnum), (0, 0, 0));
    let id = Identification::new(Class::Elf64, ByteOrder::LittleEndian);
    assert_eq!((id.version, id.size), (1, 16));
}

#[test]
fn structural_mismatches_are_reported() {
    let b = intel_exec_32();
    let h = elf_ehdr::open(&b).unwrap();
    assert_eq!(
        h.mismatches(),
        vec![
            DecodeError::StructuralMismatch(Field::IdentSize, 16, 0),
            DecodeError::StructuralMismatch(Field::Version, 1, 0),
            DecodeError::StructuralMismatch(Field::EhSize, 52, 0),
        ]
    );
    assert_eq!(elf_ehdr::open_strict(&b), Err(DecodeError::StructuralMismatch(Field::IdentSize, 16, 0)));
    let good = elf_ehdr {
        ident: Identification::new(Class::Elf64, ByteOrder::LittleEndian),
        header: elf::ELF64(sample64()),
    };
    assert!(good.mismatches().is_empty());
    assert_eq!(elf_ehdr::open_strict(&good.to_bytes()), Ok(good));
}

#[test]
fn catalog_names() {
    assert_eq!(class_name(Class::ClassNone), "None");
    assert_eq!(class_name(Class::Elf64), "ELF64");
    assert_eq!(byte_order_name(ByteOrder::BigEndian), "Big Endian");
    assert_eq!(file_type_name(0), "No file type");
    assert_eq!(file_type_name(4), "Core file");
    assert_eq!(file_type_name(0xff00), "Processor-specific");
    assert_eq!(file_type_name(0xffff), "Processor-specific");
    assert_eq!(file_type_name(5), "Unknown");
    assert_eq!(version_name(0), "Invalid version");
    assert_eq!(version_name(2), "Unknown");
    assert_eq!(Class::from_code(2), Some(Class::Elf64));
    assert_eq!(ByteOrder::from_code(3), None);
    assert_eq!(ByteOrder::BigEndian.code(), 2);
}
