use vstd::prelude::*;

verus! {

/// Width class of addresses and offsets (identification byte 4).
#[derive(Clone, Copy, Debug, PartialEq, Eq, Structural)]
pub enum Class {
    ClassNone,
    Elf32,
    Elf64,
}

/// Byte order of multi-byte fields (identification byte 5).
#[derive(Clone, Copy, Debug, PartialEq, Eq, Structural)]
pub enum ByteOrder {
    DataNone,
    LittleEndian,
    BigEndian,
}

pub open spec fn class_code(c: Class) -> u8 {
    match c {
        Class::ClassNone => 0,
        Class::Elf32 => 1,
        Class::Elf64 => 2,
    }
}

pub open spec fn byte_order_code(o: ByteOrder) -> u8 {
    match o {
        ByteOrder::DataNone => 0,
        ByteOrder::LittleEndian => 1,
        ByteOrder::BigEndian => 2,
    }
}

pub open spec fn spec_class_of(b: u8) -> Option<Class> {
    if b == 0 {
        Some(Class::ClassNone)
    } else if b == 1 {
        Some(Class::Elf32)
    } else if b == 2 {
        Some(Class::Elf64)
    } else {
        None
    }
}

pub open spec fn spec_byte_order_of(b: u8) -> Option<ByteOrder> {
    if b == 0 {
        Some(ByteOrder::DataNone)
    } else if b == 1 {
        Some(ByteOrder::LittleEndian)
    } else if b == 2 {
        Some(ByteOrder::BigEndian)
    } else {
        None
    }
}

impl Class {
    /// The class that an identification byte stands for, if any.
    pub fn from_code(b: u8) -> (r: Option<Class>)
        ensures
            r == spec_class_of(b),
    {
        match b {
            0 => Some(Class::ClassNone),
            1 => Some(Class::Elf32),
            2 => Some(Class::Elf64),
            _ => None,
        }
    }

    /// The identification byte of this class.
    pub fn code(&self) -> (r: u8)
        ensures
            r == class_code(*self),
    {
        match self {
            Class::ClassNone => 0,
            Class::Elf32 => 1,
            Class::Elf64 => 2,
        }
    }
}

impl ByteOrder {
    /// The byte order that an identification byte stands for, if any.
    pub fn from_code(b: u8) -> (r: Option<ByteOrder>)
        ensures
            r == spec_byte_order_of(b),
    {
        match b {
            0 => Some(ByteOrder::DataNone),
            1 => Some(ByteOrder::LittleEndian),
            2 => Some(ByteOrder::BigEndian),
            _ => None,
        }
    }

    /// The identification byte of this byte order.
    pub fn code(&self) -> (r: u8)
        ensures
            r == byte_order_code(*self),
    {
        match self {
            ByteOrder::DataNone => 0,
            ByteOrder::LittleEndian => 1,
            ByteOrder::BigEndian => 2,
        }
    }
}

/// Lowest and highest machine codes set aside for future use.
pub const MACHINE_RESERVED_LO: u16 = 11;
pub const MACHINE_RESERVED_HI: u16 = 16;

/// Lowest and highest file types set aside for processor-specific use.
pub const TYPE_LOPROC: u16 = 0xff00;
pub const TYPE_HIPROC: u16 = 0xffff;

pub open spec fn spec_class_name(c: Class) -> Seq<char> {
    match c {
        Class::ClassNone => "None"@,
        Class::Elf32 => "ELF32"@,
        Class::Elf64 => "ELF64"@,
    }
}

pub open spec fn spec_byte_order_name(o: ByteOrder) -> Seq<char> {
    match o {
        ByteOrder::DataNone => "None"@,
        ByteOrder::LittleEndian => "Little Endian"@,
        ByteOrder::BigEndian => "Big Endian"@,
    }
}

pub open spec fn spec_type_name(t: u16) -> Seq<char> {
    if t == 0 {
        "No file type"@
    } else if t == 1 {
        "Relocatable file"@
    } else if t == 2 {
        "Executable file"@
    } else if t == 3 {
        "Shared object file"@
    } else if t == 4 {
        "Core file"@
    } else if TYPE_LOPROC <= t <= TYPE_HIPROC {
        "Processor-specific"@
    } else {
        "Unknown"@
    }
}

pub open spec fn spec_machine_name(m: u16) -> Seq<char> {
    if m == 0 {
        "No machine"@
    } else if m == 1 {
        "AT&T WE 32100"@
    } else if m == 2 {
        "SPARC"@
    } else if m == 3 {
        "Intel Architecture"@
    } else if m == 4 {
        "Motorola 68000"@
    } else if m == 5 {
        "Motorola 88000"@
    } else if m == 6 {
        "Intel 80860"@
    } else if m == 7 {
        "MIPS RS3000 Big-Endian"@
    } else if m == 8 {
        "MIPS RS4000 Big-Endian"@
    } else if MACHINE_RESERVED_LO <= m <= MACHINE_RESERVED_HI {
        "Reserved for future use"@
    } else {
        "Unknown"@
    }
}

pub open spec fn spec_version_name(v: u32) -> Seq<char> {
    if v == 0 {
        "Invalid version"@
    } else if v == 1 {
        "Current version"@
    } else {
        "Unknown"@
    }
}

/// Display name of a class.
pub fn class_name(c: Class) -> (r: &'static str)
    ensures
        r@ == spec_class_name(c),
{
    match c {
        Class::ClassNone => "None",
        Class::Elf32 => "ELF32",
        Class::Elf64 => "ELF64",
    }
}

/// Display name of a byte order.
pub fn byte_order_name(o: ByteOrder) -> (r: &'static str)
    ensures
        r@ == spec_byte_order_name(o),
{
    match o {
        ByteOrder::DataNone => "None",
        ByteOrder::LittleEndian => "Little Endian",
        ByteOrder::BigEndian => "Big Endian",
    }
}

/// Display name of a file type; never fails.
pub fn file_type_name(t: u16) -> (r: &'static str)
    ensures
        r@ == spec_type_name(t),
{
    match t {
        0 => "No file type",
        1 => "Relocatable file",
        2 => "Executable file",
        3 => "Shared object file",
        4 => "Core file",
        TYPE_LOPROC..=TYPE_HIPROC => "Processor-specific",
        _ => "Unknown",
    }
}

/// Display name of a machine architecture; never fails.
pub fn machine_name(m: u16) -> (r: &'static str)
    ensures
        r@ == spec_machine_name(m),
{
    match m {
        0 => "No machine",
        1 => "AT&T WE 32100",
        2 => "SPARC",
        3 => "Intel Architecture",
        4 => "Motorola 68000",
        5 => "Motorola 88000",
        6 => "Intel 80860",
        7 => "MIPS RS3000 Big-Endian",
        8 => "MIPS RS4000 Big-Endian",
        MACHINE_RESERVED_LO..=MACHINE_RESERVED_HI => "Reserved for future use",
        _ => "Unknown",
    }
}

/// Display name of an object file version; never fails.
pub fn version_name(v: u32) -> (r: &'static str)
    ensures
        r@ == spec_version_name(v),
{
    match v {
        0 => "Invalid version",
        1 => "Current version",
        _ => "Unknown",
    }
}

} // verus!
