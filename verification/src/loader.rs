//! The loader: a memory-mapped file and the decoders applied to it.

use vstd::prelude::*;
use memmap::Mmap;
use std::ops::Deref;
use crate::consts::ELF64_PROGRAM_HEADER_SIZE;
use crate::error::{records, ElfError};
use crate::header::{decode_header, file_header, ElfHeader};
use crate::ident::{has_signature, ElfIdentification};
use crate::le::le_u64;
use crate::names::{decode_section_names, section_names, texts, NameConvention};
use crate::program::{
    decode_program_headers, program_table, program_table_follows_header, ElfProgramHeader,
};
use crate::section::{decode_section_headers, section_table, ElfSectionHeader};
use crate::symbol::{decode_symbols, symbol_table, ElfSymbolEntry};

verus! {

/// `memmap::Mmap`, a read-only memory map. Its fields are not visible here.
#[verifier::external_type_specification]
#[verifier::external_body]
pub struct ExMmap(Mmap);

/// The bytes that a memory map holds, in address order.
pub uninterp spec fn mapped_bytes(map: Mmap) -> Seq<u8>;

/// Calls `Mmap::deref`, which hands out the mapped region as a byte slice.
/// Believed without proof: the slice is the content of the map, the same at
/// every call as long as nothing writes to the mapped file.
#[verifier::external_body]
fn mapped_slice(map: &Mmap) -> (bytes: &[u8])
    ensures
        bytes@ == mapped_bytes(*map),
{
    map.deref()
}

/// The program headers of the file `bytes`.
pub open spec fn file_program_headers(bytes: Seq<u8>) -> Result<Seq<ElfProgramHeader>, ElfError> {
    match file_header(bytes) {
        Err(e) => Err(e),
        Ok(header) => program_table(bytes, header),
    }
}

/// The section headers of the file `bytes`.
pub open spec fn file_section_headers(bytes: Seq<u8>) -> Result<Seq<ElfSectionHeader>, ElfError> {
    match file_header(bytes) {
        Err(e) => Err(e),
        Ok(header) => section_table(bytes, header),
    }
}

/// The section names of the file `bytes`, one per section header, looked up
/// in the string table that the file header names.
pub open spec fn file_section_names(bytes: Seq<u8>) -> Result<Seq<Seq<char>>, ElfError> {
    match file_header(bytes) {
        Err(e) => Err(e),
        Ok(header) => match section_table(bytes, header) {
            Err(e) => Err(e),
            Ok(sections) => section_names(
                bytes,
                sections,
                header.e_shstrndx,
                NameConvention::OffsetAsIs,
            ),
        },
    }
}

/// The symbol table of the file `bytes`.
pub open spec fn file_symbols(bytes: Seq<u8>) -> Result<Seq<ElfSymbolEntry>, ElfError> {
    match file_section_headers(bytes) {
        Err(e) => Err(e),
        Ok(sections) => symbol_table(bytes, sections),
    }
}

/// A file whose header declares a section header table that reaches beyond
/// the end of the file, and is not declared empty, is reported as truncated
/// by every decoder that needs the table.
pub proof fn sections_beyond_end_of_file(bytes: Seq<u8>)
    requires
        file_header(bytes) matches Ok(header) && header.e_shnum > 0 && header.e_shoff
            + header.e_shnum * header.e_shentsize > bytes.len(),
    ensures
        file_section_headers(bytes) == Err::<Seq<ElfSectionHeader>, ElfError>(
            ElfError::TruncatedInput,
        ),
        file_section_names(bytes) == Err::<Seq<Seq<char>>, ElfError>(ElfError::TruncatedInput),
        file_symbols(bytes) == Err::<Seq<ElfSymbolEntry>, ElfError>(ElfError::TruncatedInput),
{
}

/// The program headers of a file that decode are as many as its header's
/// `e_phnum`, and entry `i` has as its `p_offset` the integer written at
/// byte 8 of the `i`-th slot of the table.
pub proof fn program_headers_of_file(bytes: Seq<u8>)
    requires
        file_program_headers(bytes) is Ok,
    ensures
        file_header(bytes) matches Ok(header) && file_program_headers(bytes) matches Ok(table) && {
            &&& table.len() == header.e_phnum
            &&& forall|i: int|
                0 <= i < header.e_phnum ==> (#[trigger] table[i]).p_offset == le_u64(
                    bytes,
                    header.e_phoff + ELF64_PROGRAM_HEADER_SIZE * i + 8,
                )
        },
{
    program_table_follows_header(bytes, file_header(bytes)->Ok_0);
}

/// A file mapped into memory, to be decoded as ELF64.
pub struct ElfLoader {
    pub mapped_file: Mmap,
}

impl View for ElfLoader {
    type V = Seq<u8>;

    /// The file's contents.
    open spec fn view(&self) -> Seq<u8> {
        mapped_bytes(self.mapped_file)
    }
}

impl ElfLoader {
    /// Tells whether the file begins with the ELF signature.
    pub fn is_elf(&self) -> (found: bool)
        ensures
            found == has_signature(self@),
    {
        ElfIdentification::signed(mapped_slice(&self.mapped_file))
    }

    /// Decodes the file header.
    pub fn get_elf_header(&self) -> (header: Result<ElfHeader, ElfError>)
        ensures
            header == file_header(self@),
    {
        decode_header(mapped_slice(&self.mapped_file))
    }

    /// Reads the program header table, in table order.
    pub fn get_program_headers(&self) -> (table: Result<Vec<ElfProgramHeader>, ElfError>)
        ensures
            records(table) == file_program_headers(self@),
    {
        let bytes = mapped_slice(&self.mapped_file);
        let elf_header = decode_header(bytes)?;
        decode_program_headers(bytes, &elf_header)
    }

    /// Reads the section header table, in table order.
    pub fn get_section_headers(&self) -> (table: Result<Vec<ElfSectionHeader>, ElfError>)
        ensures
            records(table) == file_section_headers(self@),
    {
        let bytes = mapped_slice(&self.mapped_file);
        let elf_header = decode_header(bytes)?;
        decode_section_headers(bytes, &elf_header)
    }

    /// Resolves the name of every section, in table order.
    pub fn get_section_names(&self) -> (names: Result<Vec<String>, ElfError>)
        ensures
            texts(names) == file_section_names(self@),
    {
        let bytes = mapped_slice(&self.mapped_file);
        let elf_header = decode_header(bytes)?;
        let section_headers = decode_section_headers(bytes, &elf_header)?;
        decode_section_names(bytes, section_headers.as_slice(), elf_header.e_shstrndx)
    }

    /// Reads the entries of the first symbol table, in table order.
    pub fn get_symbol_table(&self) -> (table: Result<Vec<ElfSymbolEntry>, ElfError>)
        ensures
            records(table) == file_symbols(self@),
    {
        let bytes = mapped_slice(&self.mapped_file);
        let elf_header = decode_header(bytes)?;
        let section_headers = decode_section_headers(bytes, &elf_header)?;
        decode_symbols(bytes, section_headers.as_slice())
    }
}

} // verus!
