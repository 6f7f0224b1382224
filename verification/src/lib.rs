//! A read-only decoder for the ELF64 object-file format.
//!
//! Given the bytes of a file, the decoders check the signature, decode the
//! file header, read the program and section header tables, resolve section
//! names through the section-name string table, and read the symbol table.
//! Every multi-byte field is read byte by byte as a little-endian integer, so
//! the bytes need no alignment, and every offset taken from the file is
//! checked against the file's length before it is used.
//!
//! `ElfLoader` applies the decoders to a memory-mapped file. The same
//! decoders are available on plain byte slices.

pub mod consts;
pub mod error;
pub mod header;
pub mod ident;
pub mod le;
pub mod loader;
pub mod names;
pub mod program;
pub mod section;
pub mod symbol;

pub use consts::{
    ELF64_ADDR_SIZE, ELF64_HEADER_SIZE, ELF64_PROGRAM_HEADER_SIZE, ELF64_SECTION_HEADER_SIZE,
    ELF64_SYMBOL_ENTRY_SIZE, HEADER_MAGIC,
};
pub use error::ElfError;
pub use header::{decode_header, ElfHeader};
pub use ident::ElfIdentification;
pub use loader::ElfLoader;
pub use names::{
    decode_section_names, decode_section_names_with, read_name, section_bytes, NameConvention,
};
pub use program::{decode_program_headers, ElfProgramHeader};
pub use section::{decode_section_headers, ElfSectionHeader};
pub use symbol::{decode_symbol_entries, decode_symbols, find_symbol_table, ElfSymbolEntry};
