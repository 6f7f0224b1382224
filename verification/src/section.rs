//! Section headers and the section header table.

use vstd::prelude::*;
use crate::consts::ELF64_SECTION_HEADER_SIZE;
use crate::error::{records, ElfError};
use crate::header::ElfHeader;
use crate::le::{le_u32, le_u64, read_u32, read_u64};

verus! {

/// One entry of the section header table.
#[derive(Clone, Copy, Debug, PartialEq, Eq, Structural)]
pub struct ElfSectionHeader {
    pub sh_name: u32,
    pub sh_type: u32,
    pub sh_flags: u64,
    pub sh_addr: u64,
    pub sh_offset: u64,
    pub sh_size: u64,
    pub sh_link: u32,
    pub sh_info: u32,
    pub sh_addralign: u64,
    pub sh_entsize: u64,
}

/// The section header whose 64 bytes start at `at` in `s`.
pub open spec fn section_header_at(s: Seq<u8>, at: int) -> ElfSectionHeader {
    ElfSectionHeader {
        sh_name: le_u32(s, at),
        sh_type: le_u32(s, at + 4),
        sh_flags: le_u64(s, at + 8),
        sh_addr: le_u64(s, at + 16),
        sh_offset: le_u64(s, at + 24),
        sh_size: le_u64(s, at + 32),
        sh_link: le_u32(s, at + 40),
        sh_info: le_u32(s, at + 44),
        sh_addralign: le_u64(s, at + 48),
        sh_entsize: le_u64(s, at + 56),
    }
}

/// The section header table that `header` declares in `bytes`.
///
/// A table of no entries is empty wherever it is said to lie. Otherwise the
/// table as declared, `e_shnum` slots of `e_shentsize` bytes from `e_shoff`,
/// must lie inside the buffer, and the slot size must be the 64 bytes of a
/// section header. Entry `i` is then the record at `e_shoff + 64 * i`.
pub open spec fn section_table(bytes: Seq<u8>, header: ElfHeader) -> Result<
    Seq<ElfSectionHeader>,
    ElfError,
> {
    if header.e_shnum == 0 {
        Ok(Seq::empty())
    } else if header.e_shoff + header.e_shnum * header.e_shentsize > bytes.len() {
        Err(ElfError::TruncatedInput)
    } else if header.e_shentsize != ELF64_SECTION_HEADER_SIZE {
        Err(ElfError::UnsupportedLayout)
    } else {
        Ok(
            Seq::new(
                header.e_shnum as nat,
                |i: int| section_header_at(bytes, header.e_shoff + ELF64_SECTION_HEADER_SIZE * i),
            ),
        )
    }
}

impl ElfSectionHeader {
    /// Decodes a section header from its 64 bytes.
    pub fn new(binary: &[u8; 64]) -> (section: ElfSectionHeader)
        ensures
            section == section_header_at(binary@, 0),
    {
        ElfSectionHeader::read(binary.as_slice(), 0)
    }

    /// Decodes the section header stored in `bytes[at..at + 64]`.
    pub(crate) fn read(bytes: &[u8], at: usize) -> (section: ElfSectionHeader)
        requires
            at + 64 <= bytes.len(),
        ensures
            section == section_header_at(bytes@, at as int),
    {
        ElfSectionHeader {
            sh_name: read_u32(bytes, at),
            sh_type: read_u32(bytes, at + 4),
            sh_flags: read_u64(bytes, at + 8),
            sh_addr: read_u64(bytes, at + 16),
            sh_offset: read_u64(bytes, at + 24),
            sh_size: read_u64(bytes, at + 32),
            sh_link: read_u32(bytes, at + 40),
            sh_info: read_u32(bytes, at + 44),
            sh_addralign: read_u64(bytes, at + 48),
            sh_entsize: read_u64(bytes, at + 56),
        }
    }
}

/// Reads the section header table that `header` declares, in table order.
pub fn decode_section_headers(bytes: &[u8], header: &ElfHeader) -> (table: Result<
    Vec<ElfSectionHeader>,
    ElfError,
>)
    ensures
        records(table) == section_table(bytes@, *header),
{
    let mut headers: Vec<ElfSectionHeader> = Vec::new();
    if header.e_shnum == 0 {
        return Ok(headers);
    }
    let len: u64 = bytes.len() as u64;
    assert(header.e_shnum * header.e_shentsize <= 0xffff * 0xffff) by (nonlinear_arith)
        requires
            header.e_shnum <= 0xffff,
            header.e_shentsize <= 0xffff,
    ;
    let declared: u64 = header.e_shnum as u64 * header.e_shentsize as u64;
    if header.e_shoff > len || declared > len - header.e_shoff {
        return Err(ElfError::TruncatedInput);
    }
    if header.e_shentsize as usize != ELF64_SECTION_HEADER_SIZE {
        return Err(ElfError::UnsupportedLayout);
    }
    assert(declared == ELF64_SECTION_HEADER_SIZE * header.e_shnum) by (nonlinear_arith)
        requires
            declared == header.e_shnum * header.e_shentsize,
            header.e_shentsize == ELF64_SECTION_HEADER_SIZE,
    ;
    let start: usize = header.e_shoff as usize;
    let count: usize = header.e_shnum as usize;
    let mut i: usize = 0;
    while i < count
        invariant
            i <= count,
            count == header.e_shnum,
            start == header.e_shoff,
            start + ELF64_SECTION_HEADER_SIZE * count <= bytes.len(),
            headers.len() == i,
            forall|k: int|
                0 <= k < i ==> headers[k] == section_header_at(
                    bytes@,
                    start + ELF64_SECTION_HEADER_SIZE * k,
                ),
        decreases count - i,
    {
        let offset: usize = start + i * ELF64_SECTION_HEADER_SIZE;
        let section = ElfSectionHeader::read(bytes, offset);
        headers.push(section);
        i += 1;
    }
    assert(headers@ =~= section_table(bytes@, *header)->Ok_0);
    Ok(headers)
}

/// Decoding a section header in place is decoding the 64-byte slot it
/// occupies, which is what `ElfSectionHeader::new` does with a copy of it.
pub proof fn section_header_in_slot(s: Seq<u8>, at: int)
    requires
        0 <= at,
        at + ELF64_SECTION_HEADER_SIZE <= s.len(),
    ensures
        section_header_at(s, at) == section_header_at(
            s.subrange(at, at + ELF64_SECTION_HEADER_SIZE),
            0,
        ),
{
}

/// A section header table that decodes has exactly `e_shnum` entries, in
/// file order: entry `i` is the record in the `i`-th 64-byte slot. A table
/// whose slots have the right size and lie inside the buffer does decode.
pub proof fn section_table_follows_header(bytes: Seq<u8>, header: ElfHeader)
    ensures
        section_table(bytes, header) matches Ok(table) ==> {
            &&& table.len() == header.e_shnum
            &&& forall|i: int|
                0 <= i < header.e_shnum ==> #[trigger] table[i] == section_header_at(
                    bytes,
                    header.e_shoff + ELF64_SECTION_HEADER_SIZE * i,
                )
        },
        header.e_shentsize == ELF64_SECTION_HEADER_SIZE && header.e_shoff
            + ELF64_SECTION_HEADER_SIZE * header.e_shnum <= bytes.len() ==> section_table(
            bytes,
            header,
        ) is Ok,
{
    if header.e_shentsize == ELF64_SECTION_HEADER_SIZE {
        assert(header.e_shnum * header.e_shentsize == ELF64_SECTION_HEADER_SIZE * header.e_shnum)
            by (nonlinear_arith)
            requires
                header.e_shentsize == ELF64_SECTION_HEADER_SIZE,
        ;
    }
}

/// A section header table that is declared to reach beyond the end of the
/// buffer is reported as truncated, unless it is declared empty.
pub proof fn section_table_beyond_end(bytes: Seq<u8>, header: ElfHeader)
    requires
        header.e_shnum > 0,
        header.e_shoff + header.e_shnum * header.e_shentsize > bytes.len(),
    ensures
        section_table(bytes, header) == Err::<Seq<ElfSectionHeader>, ElfError>(
            ElfError::TruncatedInput,
        ),
{
}

} // verus!
