//! The ways in which decoding can fail.

use vstd::prelude::*;

verus! {

/// Why a byte buffer could not be decoded.
#[derive(Clone, Copy, Debug, PartialEq, Eq, Structural)]
pub enum ElfError {
    /// The buffer does not begin with the ELF signature.
    NotElfFormat,
    /// A byte range that a record or a string needs lies outside the buffer.
    TruncatedInput,
    /// An entry-size field differs from the fixed record size, or the file is
    /// not a little-endian 64-bit object.
    UnsupportedLayout,
    /// The section-name string table index names no section.
    InvalidStringTableIndex,
    /// A section name is not valid UTF-8.
    InvalidEncoding,
    /// No section is marked as a symbol table.
    MissingSection,
    /// The symbol table's size is not a whole number of entries.
    InvalidLayout,
}

/// A decoded table as a sequence, or the error that stopped the decoding.
pub open spec fn records<T>(r: Result<Vec<T>, ElfError>) -> Result<Seq<T>, ElfError> {
    match r {
        Ok(v) => Ok(v@),
        Err(e) => Err(e),
    }
}

} // verus!
