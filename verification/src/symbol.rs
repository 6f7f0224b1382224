//! Symbol-table entries and the symbol table of a file.

use vstd::prelude::*;
use crate::consts::{ELF64_SYMBOL_ENTRY_SIZE, SHT_SYMTAB};
use crate::error::{records, ElfError};
use crate::le::{le_u16, le_u32, le_u64, read_u16, read_u32, read_u64};
use crate::section::ElfSectionHeader;

verus! {

/// One entry of a symbol table.
#[derive(Clone, Copy, Debug, PartialEq, Eq, Structural)]
pub struct ElfSymbolEntry {
    pub st_name: u32,
    pub st_info: u8,
    pub st_other: u8,
    pub st_shndx: u16,
    pub st_value: u64,
    pub st_size: u64,
}

/// The symbol entry whose 24 bytes start at `at` in `s`.
pub open spec fn symbol_at(s: Seq<u8>, at: int) -> ElfSymbolEntry {
    ElfSymbolEntry {
        st_name: le_u32(s, at),
        st_info: s[at + 4],
        st_other: s[at + 5],
        st_shndx: le_u16(s, at + 6),
        st_value: le_u64(s, at + 8),
        st_size: le_u64(s, at + 16),
    }
}

/// True when `i` is the index of the first section of `sections` whose type
/// marks a symbol table.
pub open spec fn is_first_symtab(sections: Seq<ElfSectionHeader>, i: int) -> bool {
    &&& 0 <= i < sections.len()
    &&& sections[i].sh_type == SHT_SYMTAB
    &&& forall|j: int| 0 <= j < i ==> sections[j].sh_type != SHT_SYMTAB
}

/// The entries of the symbol table that `section` describes.
///
/// The section's size must be a whole number of entries of the size it
/// declares; an entry size of zero divides nothing. The entries are then
/// `sh_size / sh_entsize` records of 24 bytes each, packed from `sh_offset`,
/// all of which must lie inside the buffer.
pub open spec fn symbols_of(bytes: Seq<u8>, section: ElfSectionHeader) -> Result<
    Seq<ElfSymbolEntry>,
    ElfError,
> {
    if section.sh_entsize == 0 || section.sh_size % section.sh_entsize != 0 {
        Err(ElfError::InvalidLayout)
    } else if section.sh_offset + (section.sh_size / section.sh_entsize) * ELF64_SYMBOL_ENTRY_SIZE
        > bytes.len() {
        Err(ElfError::TruncatedInput)
    } else {
        Ok(
            Seq::new(
                (section.sh_size / section.sh_entsize) as nat,
                |i: int| symbol_at(bytes, section.sh_offset + ELF64_SYMBOL_ENTRY_SIZE * i),
            ),
        )
    }
}

/// The symbol table of a file with the given section headers: the entries of
/// the first section marked as a symbol table.
pub open spec fn symbol_table(bytes: Seq<u8>, sections: Seq<ElfSectionHeader>) -> Result<
    Seq<ElfSymbolEntry>,
    ElfError,
> {
    if exists|i: int| is_first_symtab(sections, i) {
        symbols_of(bytes, sections[choose|i: int| is_first_symtab(sections, i)])
    } else {
        Err(ElfError::MissingSection)
    }
}

impl ElfSymbolEntry {
    /// Decodes a symbol entry from its 24 bytes.
    pub fn new(binary: &[u8; 24]) -> (entry: ElfSymbolEntry)
        ensures
            entry == symbol_at(binary@, 0),
    {
        ElfSymbolEntry::read(binary.as_slice(), 0)
    }

    /// Decodes the symbol entry stored in `bytes[at..at + 24]`.
    pub(crate) fn read(bytes: &[u8], at: usize) -> (entry: ElfSymbolEntry)
        requires
            at + 24 <= bytes.len(),
        ensures
            entry == symbol_at(bytes@, at as int),
    {
        ElfSymbolEntry {
            st_name: read_u32(bytes, at),
            st_info: bytes[at + 4],
            st_other: bytes[at + 5],
            st_shndx: read_u16(bytes, at + 6),
            st_value: read_u64(bytes, at + 8),
            st_size: read_u64(bytes, at + 16),
        }
    }
}

/// Finds the first section whose type marks a symbol table.
pub fn find_symbol_table(sections: &[ElfSectionHeader]) -> (found: Option<usize>)
    ensures
        match found {
            Some(i) => is_first_symtab(sections@, i as int),
            None => forall|i: int| !is_first_symtab(sections@, i),
        },
{
    let mut i: usize = 0;
    while i < sections.len()
        invariant
            i <= sections.len(),
            forall|j: int| 0 <= j < i ==> sections@[j].sh_type != SHT_SYMTAB,
        decreases sections.len() - i,
    {
        if sections[i].sh_type == SHT_SYMTAB {
            return Some(i);
        }
        i += 1;
    }
    None
}

/// Reads the entries of the symbol table that `section` describes, in table
/// order.
pub fn decode_symbol_entries(bytes: &[u8], section: &ElfSectionHeader) -> (table: Result<
    Vec<ElfSymbolEntry>,
    ElfError,
>)
    ensures
        records(table) == symbols_of(bytes@, *section),
{
    if section.sh_entsize == 0 || section.sh_size % section.sh_entsize != 0 {
        return Err(ElfError::InvalidLayout);
    }
    let size: u64 = section.sh_size / section.sh_entsize;
    let len: u64 = bytes.len() as u64;
    if section.sh_offset > len || size > (len - section.sh_offset) / (ELF64_SYMBOL_ENTRY_SIZE
        as u64) {
        return Err(ElfError::TruncatedInput);
    }
    let start: usize = section.sh_offset as usize;
    let count: usize = size as usize;
    let mut symbol_table: Vec<ElfSymbolEntry> = Vec::new();
    let mut i: usize = 0;
    while i < count
        invariant
            i <= count,
            count == section.sh_size / section.sh_entsize,
            start == section.sh_offset,
            start + ELF64_SYMBOL_ENTRY_SIZE * count <= bytes.len(),
            symbol_table.len() == i,
            forall|k: int|
                0 <= k < i ==> symbol_table[k] == symbol_at(
                    bytes@,
                    start + ELF64_SYMBOL_ENTRY_SIZE * k,
                ),
        decreases count - i,
    {
        let offset: usize = start + i * ELF64_SYMBOL_ENTRY_SIZE;
        let entry = ElfSymbolEntry::read(bytes, offset);
        symbol_table.push(entry);
        i += 1;
    }
    assert(symbol_table@ =~= symbols_of(bytes@, *section)->Ok_0);
    Ok(symbol_table)
}

/// Reads the symbol table of a file with the given section headers: the
/// entries of the first section marked as a symbol table, in table order.
pub fn decode_symbols(bytes: &[u8], sections: &[ElfSectionHeader]) -> (table: Result<
    Vec<ElfSymbolEntry>,
    ElfError,
>)
    ensures
        records(table) == symbol_table(bytes@, sections@),
{
    match find_symbol_table(sections) {
        Some(i) => {
            proof {
                first_symtab_is_unique(bytes@, sections@, i as int);
            }
            decode_symbol_entries(bytes, &sections[i])
        },
        None => Err(ElfError::MissingSection),
    }
}

/// At most one index is that of the first symbol-table section, so the
/// symbol table of a file is the table of the section at that index.
pub proof fn first_symtab_is_unique(bytes: Seq<u8>, sections: Seq<ElfSectionHeader>, i: int)
    requires
        is_first_symtab(sections, i),
    ensures
        forall|j: int| is_first_symtab(sections, j) ==> j == i,
        symbol_table(bytes, sections) == symbols_of(bytes, sections[i]),
{
    assert forall|j: int| is_first_symtab(sections, j) implies j == i by {
        if j < i {
            assert(sections[j].sh_type != SHT_SYMTAB);
        } else if i < j {
            assert(sections[i].sh_type != SHT_SYMTAB);
        }
    }
}

/// Decoding a symbol entry in place is decoding the 24-byte slot it
/// occupies, which is what `ElfSymbolEntry::new` does with a copy of it.
pub proof fn symbol_in_slot(s: Seq<u8>, at: int)
    requires
        0 <= at,
        at + ELF64_SYMBOL_ENTRY_SIZE <= s.len(),
    ensures
        symbol_at(s, at) == symbol_at(s.subrange(at, at + ELF64_SYMBOL_ENTRY_SIZE), 0),
{
}

/// The symbol table of a file whose first symbol-table section is `i` has
/// `sh_size / sh_entsize` entries when it decodes, and is reported as
/// `InvalidLayout` when the section's size is not a whole number of entries.
pub proof fn symbol_count_is_size_over_entsize(
    bytes: Seq<u8>,
    sections: Seq<ElfSectionHeader>,
    i: int,
)
    requires
        is_first_symtab(sections, i),
    ensures
        symbol_table(bytes, sections) matches Ok(table) ==> sections[i].sh_entsize != 0
            && table.len() == sections[i].sh_size / sections[i].sh_entsize,
        sections[i].sh_entsize == 0 || sections[i].sh_size % sections[i].sh_entsize != 0
            ==> symbol_table(bytes, sections) == Err::<Seq<ElfSymbolEntry>, ElfError>(
            ElfError::InvalidLayout,
        ),
{
    first_symtab_is_unique(bytes, sections, i);
}

/// A file with no section marked as a symbol table has no symbol table.
pub proof fn symbol_table_needs_a_section(bytes: Seq<u8>, sections: Seq<ElfSectionHeader>)
    requires
        forall|i: int| 0 <= i < sections.len() ==> sections[i].sh_type != SHT_SYMTAB,
    ensures
        symbol_table(bytes, sections) == Err::<Seq<ElfSymbolEntry>, ElfError>(
            ElfError::MissingSection,
        ),
{
}

} // verus!
