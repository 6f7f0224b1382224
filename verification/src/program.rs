//! Program headers and the program header table.

use vstd::prelude::*;
use crate::consts::ELF64_PROGRAM_HEADER_SIZE;
use crate::error::{records, ElfError};
use crate::header::ElfHeader;
use crate::le::{le_u32, le_u64, read_u32, read_u64};

verus! {

/// One entry of the program header table: a segment to load.
#[derive(Clone, Copy, Debug, PartialEq, Eq, Structural)]
pub struct ElfProgramHeader {
    pub p_type: u32,
    pub p_flags: u32,
    pub p_offset: u64,
    pub p_vaddr: u64,
    pub p_paddr: u64,
    pub p_filesz: u64,
    pub p_memsz: u64,
    pub p_align: u64,
}

/// The program header whose 56 bytes start at `at` in `s`.
pub open spec fn program_header_at(s: Seq<u8>, at: int) -> ElfProgramHeader {
    ElfProgramHeader {
        p_type: le_u32(s, at),
        p_flags: le_u32(s, at + 4),
        p_offset: le_u64(s, at + 8),
        p_vaddr: le_u64(s, at + 16),
        p_paddr: le_u64(s, at + 24),
        p_filesz: le_u64(s, at + 32),
        p_memsz: le_u64(s, at + 40),
        p_align: le_u64(s, at + 48),
    }
}

/// The program header table that `header` declares in `bytes`.
///
/// A table of no entries is empty wherever it is said to lie. Otherwise the
/// table as declared, `e_phnum` slots of `e_phentsize` bytes from `e_phoff`,
/// must lie inside the buffer, and the slot size must be the 56 bytes of a
/// program header. Entry `i` is then the record at `e_phoff + 56 * i`.
pub open spec fn program_table(bytes: Seq<u8>, header: ElfHeader) -> Result<
    Seq<ElfProgramHeader>,
    ElfError,
> {
    if header.e_phnum == 0 {
        Ok(Seq::empty())
    } else if header.e_phoff + header.e_phnum * header.e_phentsize > bytes.len() {
        Err(ElfError::TruncatedInput)
    } else if header.e_phentsize != ELF64_PROGRAM_HEADER_SIZE {
        Err(ElfError::UnsupportedLayout)
    } else {
        Ok(
            Seq::new(
                header.e_phnum as nat,
                |i: int| program_header_at(bytes, header.e_phoff + ELF64_PROGRAM_HEADER_SIZE * i),
            ),
        )
    }
}

impl ElfProgramHeader {
    /// Decodes a program header from its 56 bytes.
    pub fn new(binary: &[u8; 56]) -> (segment: ElfProgramHeader)
        ensures
            segment == program_header_at(binary@, 0),
    {
        ElfProgramHeader::read(binary.as_slice(), 0)
    }

    /// Decodes the program header stored in `bytes[at..at + 56]`.
    pub(crate) fn read(bytes: &[u8], at: usize) -> (segment: ElfProgramHeader)
        requires
            at + 56 <= bytes.len(),
        ensures
            segment == program_header_at(bytes@, at as int),
    {
        ElfProgramHeader {
            p_type: read_u32(bytes, at),
            p_flags: read_u32(bytes, at + 4),
            p_offset: read_u64(bytes, at + 8),
            p_vaddr: read_u64(bytes, at + 16),
            p_paddr: read_u64(bytes, at + 24),
            p_filesz: read_u64(bytes, at + 32),
            p_memsz: read_u64(bytes, at + 40),
            p_align: read_u64(bytes, at + 48),
        }
    }
}

/// Reads the program header table that `header` declares, in table order.
pub fn decode_program_headers(bytes: &[u8], header: &ElfHeader) -> (table: Result<
    Vec<ElfProgramHeader>,
    ElfError,
>)
    ensures
        records(table) == program_table(bytes@, *header),
{
    let mut headers: Vec<ElfProgramHeader> = Vec::new();
    if header.e_phnum == 0 {
        return Ok(headers);
    }
    let len: u64 = bytes.len() as u64;
    assert(header.e_phnum * header.e_phentsize <= 0xffff * 0xffff) by (nonlinear_arith)
        requires
            header.e_phnum <= 0xffff,
            header.e_phentsize <= 0xffff,
    ;
    let declared: u64 = header.e_phnum as u64 * header.e_phentsize as u64;
    if header.e_phoff > len || declared > len - header.e_phoff {
        return Err(ElfError::TruncatedInput);
    }
    if header.e_phentsize as usize != ELF64_PROGRAM_HEADER_SIZE {
        return Err(ElfError::UnsupportedLayout);
    }
    assert(declared == ELF64_PROGRAM_HEADER_SIZE * header.e_phnum) by (nonlinear_arith)
        requires
            declared == header.e_phnum * header.e_phentsize,
            header.e_phentsize == ELF64_PROGRAM_HEADER_SIZE,
    ;
    let start: usize = header.e_phoff as usize;
    let count: usize = header.e_phnum as usize;
    let mut i: usize = 0;
    while i < count
        invariant
            i <= count,
            count == header.e_phnum,
            start == header.e_phoff,
            start + ELF64_PROGRAM_HEADER_SIZE * count <= bytes.len(),
            headers.len() == i,
            forall|k: int|
                0 <= k < i ==> headers[k] == program_header_at(
                    bytes@,
                    start + ELF64_PROGRAM_HEADER_SIZE * k,
                ),
        decreases count - i,
    {
        let offset: usize = start + i * ELF64_PROGRAM_HEADER_SIZE;
        let segment = ElfProgramHeader::read(bytes, offset);
        headers.push(segment);
        i += 1;
    }
    assert(headers@ =~= program_table(bytes@, *header)->Ok_0);
    Ok(headers)
}

/// Decoding a program header in place is decoding the 56-byte slot it
/// occupies, which is what `ElfProgramHeader::new` does with a copy of it.
pub proof fn program_header_in_slot(s: Seq<u8>, at: int)
    requires
        0 <= at,
        at + ELF64_PROGRAM_HEADER_SIZE <= s.len(),
    ensures
        program_header_at(s, at) == program_header_at(
            s.subrange(at, at + ELF64_PROGRAM_HEADER_SIZE),
            0,
        ),
{
}

/// A program header table that decodes has exactly `e_phnum` entries, in
/// file order: entry `i` is the record in the `i`-th 56-byte slot, so its
/// `p_offset` is the integer written at byte 8 of that slot. A table whose
/// slots have the right size and lie inside the buffer does decode.
pub proof fn program_table_follows_header(bytes: Seq<u8>, header: ElfHeader)
    ensures
        program_table(bytes, header) matches Ok(table) ==> {
            &&& table.len() == header.e_phnum
            &&& forall|i: int|
                0 <= i < header.e_phnum ==> {
                    &&& #[trigger] table[i] == program_header_at(
                        bytes,
                        header.e_phoff + ELF64_PROGRAM_HEADER_SIZE * i,
                    )
                    &&& table[i].p_offset == le_u64(
                        bytes,
                        header.e_phoff + ELF64_PROGRAM_HEADER_SIZE * i + 8,
                    )
                }
        },
        header.e_phentsize == ELF64_PROGRAM_HEADER_SIZE && header.e_phoff
            + ELF64_PROGRAM_HEADER_SIZE * header.e_phnum <= bytes.len() ==> program_table(
            bytes,
            header,
        ) is Ok,
{
    if header.e_phentsize == ELF64_PROGRAM_HEADER_SIZE {
        assert(header.e_phnum * header.e_phentsize == ELF64_PROGRAM_HEADER_SIZE * header.e_phnum)
            by (nonlinear_arith)
            requires
                header.e_phentsize == ELF64_PROGRAM_HEADER_SIZE,
        ;
    }
}

/// A program header table that is declared to reach beyond the end of the
/// buffer is reported as truncated, unless it is declared empty.
pub proof fn program_table_beyond_end(bytes: Seq<u8>, header: ElfHeader)
    requires
        header.e_phnum > 0,
        header.e_phoff + header.e_phnum * header.e_phentsize > bytes.len(),
    ensures
        program_table(bytes, header) == Err::<Seq<ElfProgramHeader>, ElfError>(
            ElfError::TruncatedInput,
        ),
{
}

} // verus!
