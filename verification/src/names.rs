//! Section names: null-terminated strings in the section-name string table.

use vstd::prelude::*;
use vstd::utf8::{decode_utf8, encode_utf8, valid_utf8};
use crate::error::ElfError;
use crate::section::ElfSectionHeader;

verus! {

/// Where a section's name starts in the string pool, given its `sh_name`.
///
/// The ELF format defines `sh_name` as the index of the name's first byte.
/// That is `OffsetAsIs`, and files written by the GNU assembler and linker
/// follow it: read that way their sections are `.text`, `.data`, `.symtab`;
/// read one byte later the names lose their leading dot, and the unnamed
/// first section takes the name that stands at index 1. The decoders that
/// take no convention therefore use `OffsetAsIs`. `OffsetPlusOne` is kept so
/// that both readings can be run against the same file.
#[derive(Clone, Copy, Debug, PartialEq, Eq, Structural)]
pub enum NameConvention {
    OffsetAsIs,
    OffsetPlusOne,
}

impl NameConvention {
    /// The pool index at which the name with offset `sh_name` starts.
    pub open spec fn start(self, sh_name: u32) -> int {
        match self {
            NameConvention::OffsetAsIs => sh_name as int,
            NameConvention::OffsetPlusOne => sh_name + 1,
        }
    }

    /// Computes the pool index at which the name with offset `sh_name` starts.
    pub fn lookup_position(self, sh_name: u32) -> (position: u64)
        ensures
            position == self.start(sh_name),
    {
        match self {
            NameConvention::OffsetAsIs => sh_name as u64,
            NameConvention::OffsetPlusOne => sh_name as u64 + 1,
        }
    }
}

/// The bytes of `bytes` that `section` covers, `[sh_offset, sh_offset + sh_size)`.
pub open spec fn section_range(bytes: Seq<u8>, section: ElfSectionHeader) -> Result<
    Seq<u8>,
    ElfError,
> {
    if section.sh_offset + section.sh_size > bytes.len() {
        Err(ElfError::TruncatedInput)
    } else {
        Ok(bytes.subrange(section.sh_offset as int, section.sh_offset + section.sh_size))
    }
}

/// The string pool of a file: the bytes of the section at `index`.
pub open spec fn string_pool(bytes: Seq<u8>, sections: Seq<ElfSectionHeader>, index: u16) -> Result<
    Seq<u8>,
    ElfError,
> {
    if index >= sections.len() {
        Err(ElfError::InvalidStringTableIndex)
    } else {
        section_range(bytes, sections[index as int])
    }
}

/// True when the string that starts at `start` ends at `end`: `end` holds the
/// first zero byte at or after `start`.
pub open spec fn is_name_end(pool: Seq<u8>, start: int, end: int) -> bool {
    &&& 0 <= start <= end < pool.len()
    &&& pool[end] == 0
    &&& forall|j: int| start <= j < end ==> pool[j] != 0
}

/// The name that starts at `start` in `pool`: the bytes up to the first zero
/// byte, read as UTF-8.
pub open spec fn name_at(pool: Seq<u8>, start: int) -> Result<Seq<char>, ElfError> {
    if exists|end: int| is_name_end(pool, start, end) {
        let end = choose|end: int| is_name_end(pool, start, end);
        if valid_utf8(pool.subrange(start, end)) {
            Ok(decode_utf8(pool.subrange(start, end)))
        } else {
            Err(ElfError::InvalidEncoding)
        }
    } else {
        Err(ElfError::TruncatedInput)
    }
}

/// The names of the first `n` sections, or the error of the first section
/// among them whose name cannot be read.
pub open spec fn names_of_first(
    pool: Seq<u8>,
    sections: Seq<ElfSectionHeader>,
    convention: NameConvention,
    n: int,
) -> Result<Seq<Seq<char>>, ElfError>
    decreases n,
{
    if n <= 0 {
        Ok(Seq::empty())
    } else {
        match names_of_first(pool, sections, convention, n - 1) {
            Err(e) => Err(e),
            Ok(names) => match name_at(pool, convention.start(sections[n - 1].sh_name)) {
                Err(e) => Err(e),
                Ok(name) => Ok(names.push(name)),
            },
        }
    }
}

/// The names of all sections of a file, in table order. The pool is the
/// section at `index`; every section's name is looked up in it.
pub open spec fn section_names(
    bytes: Seq<u8>,
    sections: Seq<ElfSectionHeader>,
    index: u16,
    convention: NameConvention,
) -> Result<Seq<Seq<char>>, ElfError> {
    match string_pool(bytes, sections, index) {
        Err(e) => Err(e),
        Ok(pool) => names_of_first(pool, sections, convention, sections.len() as int),
    }
}

/// A decoded name as a sequence of characters, or the error.
pub open spec fn text(r: Result<String, ElfError>) -> Result<Seq<char>, ElfError> {
    match r {
        Ok(s) => Ok(s@),
        Err(e) => Err(e),
    }
}

/// Decoded names as sequences of characters, or the error.
pub open spec fn texts(r: Result<Vec<String>, ElfError>) -> Result<Seq<Seq<char>>, ElfError> {
    match r {
        Ok(v) => Ok(v.deep_view()),
        Err(e) => Err(e),
    }
}

/// Calls `String::from_utf8`. Believed without proof: the call succeeds
/// exactly on well-formed UTF-8, and the string it gives holds the characters
/// that the bytes encode.
#[verifier::external_body]
fn string_from_utf8(bytes: Vec<u8>) -> (decoded: Option<String>)
    ensures
        decoded is Some <==> valid_utf8(bytes@),
        decoded matches Some(s) ==> s@ == decode_utf8(bytes@),
{
    String::from_utf8(bytes).ok()
}

/// Borrows the bytes that `section` covers in `bytes`.
pub fn section_bytes<'a>(bytes: &'a [u8], section: &ElfSectionHeader) -> (range: Result<
    &'a [u8],
    ElfError,
>)
    ensures
        match range {
            Ok(pool) => section_range(bytes@, *section) == Ok::<Seq<u8>, ElfError>(pool@),
            Err(e) => section_range(bytes@, *section) == Err::<Seq<u8>, ElfError>(e),
        },
{
    let len: u64 = bytes.len() as u64;
    if section.sh_offset > len || section.sh_size > len - section.sh_offset {
        return Err(ElfError::TruncatedInput);
    }
    let from: usize = section.sh_offset as usize;
    let to: usize = from + section.sh_size as usize;
    Ok(vstd::slice::slice_subrange(bytes, from, to))
}

/// Reads the null-terminated name that starts at `start` in `pool`.
pub fn read_name(pool: &[u8], start: u64) -> (name: Result<String, ElfError>)
    ensures
        text(name) == name_at(pool@, start as int),
{
    if start >= pool.len() as u64 {
        return Err(ElfError::TruncatedInput);
    }
    let first: usize = start as usize;
    let mut index: usize = first;
    let mut bytes: Vec<u8> = Vec::new();
    while index < pool.len() && pool[index] != 0
        invariant
            first <= index <= pool.len(),
            bytes@ == pool@.subrange(first as int, index as int),
            forall|j: int| first <= j < index ==> pool@[j] != 0,
        decreases pool.len() - index,
    {
        bytes.push(pool[index]);
        index += 1;
        assert(bytes@ =~= pool@.subrange(first as int, index as int));
    }
    if index >= pool.len() {
        return Err(ElfError::TruncatedInput);
    }
    proof {
        name_end_is_unique(pool@, first as int, index as int);
    }
    match string_from_utf8(bytes) {
        Some(converted) => Ok(converted),
        None => Err(ElfError::InvalidEncoding),
    }
}

/// Resolves the name of every section, in table order, looking each up in
/// the string pool that the section at `shstrndx` covers.
pub fn decode_section_names_with(
    bytes: &[u8],
    sections: &[ElfSectionHeader],
    shstrndx: u16,
    convention: NameConvention,
) -> (names: Result<Vec<String>, ElfError>)
    ensures
        texts(names) == section_names(bytes@, sections@, shstrndx, convention),
{
    if shstrndx as usize >= sections.len() {
        return Err(ElfError::InvalidStringTableIndex);
    }
    let pool = section_bytes(bytes, &sections[shstrndx as usize])?;
    let mut names: Vec<String> = Vec::new();
    let mut i: usize = 0;
    assert(names.deep_view() =~= Seq::<Seq<char>>::empty());
    while i < sections.len()
        invariant
            i <= sections.len(),
            string_pool(bytes@, sections@, shstrndx) == Ok::<Seq<u8>, ElfError>(pool@),
            names_of_first(pool@, sections@, convention, i as int) == Ok::<
                Seq<Seq<char>>,
                ElfError,
            >(names.deep_view()),
        decreases sections.len() - i,
    {
        let position: u64 = convention.lookup_position(sections[i].sh_name);
        let ghost before = names.deep_view();
        match read_name(pool, position) {
            Ok(name) => {
                names.push(name);
                assert(names.deep_view() =~= before.push(name@));
            },
            Err(e) => {
                proof {
                    names_fail_at(pool@, sections@, convention, i as int, sections.len() as int);
                }
                return Err(e);
            },
        }
        i += 1;
    }
    Ok(names)
}

/// Resolves the name of every section, in table order, taking each
/// section's `sh_name` as the index of its name's first byte.
pub fn decode_section_names(bytes: &[u8], sections: &[ElfSectionHeader], shstrndx: u16) -> (names:
    Result<Vec<String>, ElfError>)
    ensures
        texts(names) == section_names(bytes@, sections@, shstrndx, NameConvention::OffsetAsIs),
{
    decode_section_names_with(bytes, sections, shstrndx, NameConvention::OffsetAsIs)
}

/// A string has one end: the first zero byte at or after its start.
pub proof fn name_end_is_unique(pool: Seq<u8>, start: int, end: int)
    requires
        is_name_end(pool, start, end),
    ensures
        forall|other: int| is_name_end(pool, start, other) ==> other == end,
        name_at(pool, start) == if valid_utf8(pool.subrange(start, end)) {
            Ok::<Seq<char>, ElfError>(decode_utf8(pool.subrange(start, end)))
        } else {
            Err::<Seq<char>, ElfError>(ElfError::InvalidEncoding)
        },
{
    assert forall|other: int| is_name_end(pool, start, other) implies other == end by {
        if other < end {
            assert(pool[other] != 0);
        } else if end < other {
            assert(pool[end] != 0);
        }
    }
}

/// Once the name of section `i` cannot be read after the names before it
/// could, every longer prefix of the table fails with that section's error.
pub proof fn names_fail_at(
    pool: Seq<u8>,
    sections: Seq<ElfSectionHeader>,
    convention: NameConvention,
    i: int,
    n: int,
)
    requires
        0 <= i < n,
        names_of_first(pool, sections, convention, i) is Ok,
        name_at(pool, convention.start(sections[i].sh_name)) is Err,
    ensures
        names_of_first(pool, sections, convention, n) == Err::<Seq<Seq<char>>, ElfError>(
            name_at(pool, convention.start(sections[i].sh_name))->Err_0,
        ),
    decreases n,
{
    if n > i + 1 {
        names_fail_at(pool, sections, convention, i, n - 1);
    }
}

/// True when `name` stands in `pool` at `start` as a null-terminated string:
/// the UTF-8 encoding of a name without a NUL character, followed by a zero
/// byte.
pub open spec fn written_at(pool: Seq<u8>, start: int, name: Seq<char>) -> bool {
    let encoded = encode_utf8(name);
    &&& 0 <= start
    &&& start + encoded.len() < pool.len()
    &&& pool.subrange(start, start + encoded.len()) == encoded
    &&& pool[start + encoded.len()] == 0
    &&& forall|i: int| 0 <= i < name.len() ==> name[i] != '\0'
}

/// The UTF-8 encoding of a name without a NUL character holds no zero byte.
pub proof fn encoding_without_nul(name: Seq<char>)
    requires
        forall|i: int| 0 <= i < name.len() ==> name[i] != '\0',
    ensures
        forall|k: int| 0 <= k < encode_utf8(name).len() ==> encode_utf8(name)[k] != 0,
    decreases name.len(),
{
    if name.len() > 0 {
        let c = name[0] as u32;
        let head = vstd::utf8::encode_scalar(c);
        let tail = encode_utf8(name.drop_first());
        vstd::utf8::char_is_scalar(name[0]);
        assert(c != 0) by {
            if c == 0 {
                vstd::utf8::char_u32_cast(name[0], 0u32);
                vstd::utf8::char_u32_cast('\0', 0u32);
            }
        }
        assert(c <= 0x7f ==> (c & 0x7f) as u8 != 0) by (bit_vector)
            requires
                c != 0,
        ;
        assert(0xC0 | ((c >> 6) & 0x1F) as u8 != 0) by (bit_vector);
        assert(0xE0 | ((c >> 12) & 0x0F) as u8 != 0) by (bit_vector);
        assert(0xF0 | ((c >> 18) & 0x7) as u8 != 0) by (bit_vector);
        assert(0x80 | (c & 0x3F) as u8 != 0) by (bit_vector);
        assert(0x80 | ((c >> 6) & 0x3F) as u8 != 0) by (bit_vector);
        assert(0x80 | ((c >> 12) & 0x3F) as u8 != 0) by (bit_vector);
        assert(forall|k: int| 0 <= k < head.len() ==> head[k] != 0);
        encoding_without_nul(name.drop_first());
        assert(encode_utf8(name) == head + tail);
        assert forall|k: int| 0 <= k < encode_utf8(name).len() implies encode_utf8(name)[k]
            != 0 by {
            if k >= head.len() {
                assert((head + tail)[k] == tail[k - head.len()]);
            } else {
                assert((head + tail)[k] == head[k]);
            }
        }
    }
}

/// A name written into the pool is the name read back from where it starts.
pub proof fn name_round_trip(pool: Seq<u8>, start: int, name: Seq<char>)
    requires
        written_at(pool, start, name),
    ensures
        name_at(pool, start) == Ok::<Seq<char>, ElfError>(name),
{
    let encoded = encode_utf8(name);
    let end = start + encoded.len();
    encoding_without_nul(name);
    assert forall|j: int| start <= j < end implies pool[j] != 0 by {
        assert(pool.subrange(start, end)[j - start] == pool[j]);
    }
    name_end_is_unique(pool, start, end);
    vstd::utf8::encode_utf8_valid_utf8(name);
    vstd::utf8::encode_utf8_decode_utf8(name);
}

/// Section names round-trip: when the string pool of a file holds, for
/// every section, a name written where that section's `sh_name` points, the
/// names of the file are exactly those names, in table order.
pub proof fn section_names_round_trip(
    bytes: Seq<u8>,
    sections: Seq<ElfSectionHeader>,
    index: u16,
    convention: NameConvention,
    names: Seq<Seq<char>>,
)
    requires
        string_pool(bytes, sections, index) is Ok,
        names.len() == sections.len(),
        forall|i: int|
            0 <= i < sections.len() ==> written_at(
                string_pool(bytes, sections, index)->Ok_0,
                convention.start(#[trigger] sections[i].sh_name),
                names[i],
            ),
    ensures
        section_names(bytes, sections, index, convention) == Ok::<Seq<Seq<char>>, ElfError>(names),
{
    let pool = string_pool(bytes, sections, index)->Ok_0;
    names_of_written(pool, sections, convention, names, sections.len() as int);
    assert(names.take(sections.len() as int) =~= names);
}

/// The first `n` names of a pool in which every one of them is written.
proof fn names_of_written(
    pool: Seq<u8>,
    sections: Seq<ElfSectionHeader>,
    convention: NameConvention,
    names: Seq<Seq<char>>,
    n: int,
)
    requires
        0 <= n <= sections.len(),
        names.len() == sections.len(),
        forall|i: int|
            0 <= i < sections.len() ==> written_at(
                pool,
                convention.start(#[trigger] sections[i].sh_name),
                names[i],
            ),
    ensures
        names_of_first(pool, sections, convention, n) == Ok::<Seq<Seq<char>>, ElfError>(
            names.take(n),
        ),
    decreases n,
{
    if n == 0 {
        assert(names.take(0) =~= Seq::<Seq<char>>::empty());
    } else {
        names_of_written(pool, sections, convention, names, n - 1);
        name_round_trip(pool, convention.start(sections[n - 1].sh_name), names[n - 1]);
        assert(names.take(n - 1).push(names[n - 1]) =~= names.take(n));
    }
}

/// The names of a file's sections are one per section, in table order:
/// entry `i` is the name at the position that section `i` points to.
pub proof fn section_names_are_per_section(
    bytes: Seq<u8>,
    sections: Seq<ElfSectionHeader>,
    index: u16,
    convention: NameConvention,
)
    requires
        section_names(bytes, sections, index, convention) is Ok,
    ensures
        string_pool(bytes, sections, index) is Ok,
        section_names(bytes, sections, index, convention)->Ok_0.len() == sections.len(),
        forall|i: int|
            0 <= i < sections.len() ==> name_at(
                string_pool(bytes, sections, index)->Ok_0,
                convention.start(#[trigger] sections[i].sh_name),
            ) == Ok::<Seq<char>, ElfError>(
                section_names(bytes, sections, index, convention)->Ok_0[i],
            ),
{
    let pool = string_pool(bytes, sections, index)->Ok_0;
    names_of_first_entries(pool, sections, convention, sections.len() as int);
}

/// What a successful prefix of the names holds.
proof fn names_of_first_entries(
    pool: Seq<u8>,
    sections: Seq<ElfSectionHeader>,
    convention: NameConvention,
    n: int,
)
    requires
        0 <= n,
        names_of_first(pool, sections, convention, n) is Ok,
    ensures
        names_of_first(pool, sections, convention, n)->Ok_0.len() == n,
        forall|i: int|
            0 <= i < n ==> name_at(pool, convention.start(#[trigger] sections[i].sh_name)) == Ok::<
                Seq<char>,
                ElfError,
            >(names_of_first(pool, sections, convention, n)->Ok_0[i]),
    decreases n,
{
    if n > 0 {
        names_of_first_entries(pool, sections, convention, n - 1);
    }
}

} // verus!
