//! Decoder for the identification block and file header of ELF binaries.
pub mod catalog;
pub mod codec;
pub mod facade;
pub mod error;
pub mod header;
pub mod ident;
pub mod laws;
pub mod text;

pub use catalog::{ByteOrder, Class};
pub use facade::{elf, elf_ehdr};
pub use error::{DecodeError, Field};
pub use header::{elf32_ehdr, elf64_ehdr};
pub use ident::Identification;
