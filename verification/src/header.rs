//! The file header: the fixed record that follows the identification block.

use vstd::prelude::*;
use crate::consts::{ELF64_ADDR_SIZE, ELF64_HEADER_SIZE, ELF_CLASS_64, ELF_DATA_LE};
use crate::error::ElfError;
use crate::ident::{has_signature, ElfIdentification};
use crate::le::{le_u16, le_u32, le_u64, read_u16, read_u32, read_u64};

verus! {

/// The ELF64 file header, without the identification block before it.
#[derive(Clone, Copy, Debug, PartialEq, Eq, Structural)]
pub struct ElfHeader {
    pub e_type: u16,
    pub e_machine: u16,
    pub e_version: u32,
    pub e_entry: u64,
    pub e_phoff: u64,
    pub e_shoff: u64,
    pub e_flags: u32,
    pub e_ehsize: u16,
    pub e_phentsize: u16,
    pub e_phnum: u16,
    pub e_shentsize: u16,
    pub e_shnum: u16,
    pub e_shstrndx: u16,
}

/// The file header whose 48 bytes start at `at` in `s`: each field is the
/// little-endian integer at its fixed offset, with no padding.
pub open spec fn header_at(s: Seq<u8>, at: int) -> ElfHeader {
    ElfHeader {
        e_type: le_u16(s, at),
        e_machine: le_u16(s, at + 2),
        e_version: le_u32(s, at + 4),
        e_entry: le_u64(s, at + 8),
        e_phoff: le_u64(s, at + 16),
        e_shoff: le_u64(s, at + 24),
        e_flags: le_u32(s, at + 32),
        e_ehsize: le_u16(s, at + 36),
        e_phentsize: le_u16(s, at + 38),
        e_phnum: le_u16(s, at + 40),
        e_shentsize: le_u16(s, at + 42),
        e_shnum: le_u16(s, at + 44),
        e_shstrndx: le_u16(s, at + 46),
    }
}

/// The file header of the file `bytes`.
///
/// The identification block comes first: it must be there in full, carry
/// the signature, and announce a little-endian 64-bit object. The header is
/// then the 48 bytes that follow it, which must be there in full too.
pub open spec fn file_header(bytes: Seq<u8>) -> Result<ElfHeader, ElfError> {
    if bytes.len() < ELF64_ADDR_SIZE {
        Err(ElfError::TruncatedInput)
    } else if !has_signature(bytes) {
        Err(ElfError::NotElfFormat)
    } else if bytes[4] != ELF_CLASS_64 || bytes[5] != ELF_DATA_LE {
        Err(ElfError::UnsupportedLayout)
    } else if bytes.len() < ELF64_ADDR_SIZE + ELF64_HEADER_SIZE {
        Err(ElfError::TruncatedInput)
    } else {
        Ok(header_at(bytes, ELF64_ADDR_SIZE as int))
    }
}

impl ElfHeader {
    /// Decodes a file header from its 48 bytes.
    pub fn new(binary: &[u8; 48]) -> (header: ElfHeader)
        ensures
            header == header_at(binary@, 0),
    {
        ElfHeader::read(binary.as_slice(), 0)
    }

    /// Decodes the file header stored in `bytes[at..at + 48]`.
    pub(crate) fn read(bytes: &[u8], at: usize) -> (header: ElfHeader)
        requires
            at + 48 <= bytes.len(),
        ensures
            header == header_at(bytes@, at as int),
    {
        ElfHeader {
            e_type: read_u16(bytes, at),
            e_machine: read_u16(bytes, at + 2),
            e_version: read_u32(bytes, at + 4),
            e_entry: read_u64(bytes, at + 8),
            e_phoff: read_u64(bytes, at + 16),
            e_shoff: read_u64(bytes, at + 24),
            e_flags: read_u32(bytes, at + 32),
            e_ehsize: read_u16(bytes, at + 36),
            e_phentsize: read_u16(bytes, at + 38),
            e_phnum: read_u16(bytes, at + 40),
            e_shentsize: read_u16(bytes, at + 42),
            e_shnum: read_u16(bytes, at + 44),
            e_shstrndx: read_u16(bytes, at + 46),
        }
    }
}

/// Decoding a header in place is decoding the 48-byte slot it occupies, which
/// is what `ElfHeader::new` does with a copy of that slot.
pub proof fn header_in_slot(s: Seq<u8>, at: int)
    requires
        0 <= at,
        at + ELF64_HEADER_SIZE <= s.len(),
    ensures
        header_at(s, at) == header_at(s.subrange(at, at + ELF64_HEADER_SIZE), 0),
{
}

/// Decodes the file header of the file `bytes`, after checking its
/// identification block.
pub fn decode_header(bytes: &[u8]) -> (header: Result<ElfHeader, ElfError>)
    ensures
        header == file_header(bytes@),
{
    let identification = ElfIdentification::new(bytes)?;
    identification.validate()?;
    if bytes.len() < ELF64_ADDR_SIZE + ELF64_HEADER_SIZE {
        return Err(ElfError::TruncatedInput);
    }
    Ok(ElfHeader::read(bytes, ELF64_ADDR_SIZE))
}

} // verus!
