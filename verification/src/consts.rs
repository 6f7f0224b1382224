//! Fixed sizes and tag values of the ELF64 layout.

use vstd::prelude::*;

verus! {

/// The four bytes every ELF file starts with: `0x7f 'E' 'L' 'F'`.
pub const HEADER_MAGIC: [u8; 4] = [0x7f, 0x45, 0x4c, 0x46];

/// Size in bytes of the identification block at offset 0.
pub const ELF64_ADDR_SIZE: usize = 16;

/// Size in bytes of the file header that follows the identification block.
pub const ELF64_HEADER_SIZE: usize = 48;

/// Size in bytes of one program header.
pub const ELF64_PROGRAM_HEADER_SIZE: usize = 56;

/// Size in bytes of one section header.
pub const ELF64_SECTION_HEADER_SIZE: usize = 64;

/// Size in bytes of one symbol-table entry.
pub const ELF64_SYMBOL_ENTRY_SIZE: usize = 24;

/// Class byte of a 64-bit object.
pub const ELF_CLASS_64: u8 = 2;

/// Data-encoding byte of a little-endian object.
pub const ELF_DATA_LE: u8 = 1;

/// Section type of a symbol table.
pub const SHT_SYMTAB: u32 = 2;

} // verus!
