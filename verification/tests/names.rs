use elf64::{
    decode_section_names, decode_section_names_with, read_name, section_bytes, ElfError,
    ElfSectionHeader, NameConvention,
};

fn named(sh_name: u32) -> ElfSectionHeader {
    ElfSectionHeader {
        sh_name,
        sh_type: 1,
        sh_flags: 0,
        sh_addr: 0,
        sh_offset: 0,
        sh_size: 0,
        sh_link: 0,
        sh_info: 0,
        sh_addralign: 1,
        sh_entsize: 0,
    }
}

fn string_table(sh_name: u32, sh_offset: u64, sh_size: u64) -> ElfSectionHeader {
    ElfSectionHeader {
        sh_name,
        sh_type: 3,
        sh_flags: 0,
        sh_addr: 0,
        sh_offset,
        sh_size,
        sh_link: 0,
        sh_info: 0,
        sh_addralign: 1,
        sh_entsize: 0,
    }
}

/// A file that holds `pool` at offset 32, and the offsets in `pool` at
/// which each of `names` was written.
fn pool_of(names: &[&str]) -> (Vec<u8>, Vec<u32>) {
    let mut file = vec![0xccu8; 32];
    let mut offsets = Vec::new();
    file.push(0);
    for name in names {
        offsets.push((file.len() - 32) as u32);
        file.extend_from_slice(name.as_bytes());
        file.push(0);
    }
    (file, offsets)
}

fn strings(names: &[&str]) -> Vec<String> {
    names.iter().map(|s| s.to_string()).collect()
}

#[test]
fn names_written_into_the_pool_are_read_back_in_table_order() {
    let names = [".text", ".data", ".bss", ".rodata", ".symtab", ".shstrtab"];
    let (file, offsets) = pool_of(&names);
    let size = file.len() as u64 - 32;
    let mut sections: Vec<ElfSectionHeader> = offsets.iter().map(|o| named(*o)).collect();
    sections[5] = string_table(offsets[5], 32, size);
    assert_eq!(decode_section_names(&file, &sections, 5), Ok(strings(&names)));
}

#[test]
fn names_follow_the_sections_not_the_pool() {
    let (file, offsets) = pool_of(&["alpha", "beta", "gamma"]);
    let size = file.len() as u64 - 32;
    let sections = vec![
        named(offsets[2]),
        string_table(offsets[0], 32, size),
        named(offsets[1]),
        named(offsets[2]),
        named(0),
    ];
    assert_eq!(
        decode_section_names(&file, &sections, 1),
        Ok(strings(&["gamma", "alpha", "beta", "gamma", ""]))
    );
}

#[test]
fn a_name_may_start_in_the_middle_of_another() {
    let (file, offsets) = pool_of(&[".rela.text"]);
    let size = file.len() as u64 - 32;
    let sections = vec![string_table(offsets[0], 32, size), named(offsets[0] + 5)];
    assert_eq!(
        decode_section_names(&file, &sections, 0),
        Ok(strings(&[".rela.text", ".text"]))
    );
}

#[test]
fn names_beyond_ascii_are_read_as_utf8() {
    let names = ["naïve", "データ", "σ", "𝄞clef", "tab\there"];
    let (file, offsets) = pool_of(&names);
    let size = file.len() as u64 - 32;
    let mut sections: Vec<ElfSectionHeader> = offsets.iter().map(|o| named(*o)).collect();
    sections.push(string_table(0, 32, size));
    let mut expected = strings(&names);
    expected.push(String::new());
    assert_eq!(decode_section_names(&file, &sections, 5), Ok(expected));
}

#[test]
fn the_two_conventions_on_one_fixture() {
    // Three section headers; the third is the string table, which holds
    // "\0.text\0.data\0" at offset 64.
    let mut file = vec![0u8; 64];
    file.extend_from_slice(b"\0.text\0.data\0");
    let sections = vec![named(1), named(7), string_table(0, 64, 13)];
    assert_eq!(sections.len(), 3);

    let as_is = decode_section_names_with(&file, &sections, 2, NameConvention::OffsetAsIs);
    assert_eq!(as_is, Ok(strings(&[".text", ".data", ""])));

    let plus_one = decode_section_names_with(&file, &sections, 2, NameConvention::OffsetPlusOne);
    assert_eq!(plus_one, Ok(strings(&["text", "data", ".text"])));

    assert_eq!(decode_section_names(&file, &sections, 2), as_is);
}

#[test]
fn plus_one_reaches_names_written_one_byte_later() {
    let mut file = Vec::new();
    file.extend_from_slice(b"\0.text\0.data\0");
    let sections = vec![named(0), named(6), string_table(12, 0, 13)];
    assert_eq!(
        decode_section_names_with(&file, &sections, 2, NameConvention::OffsetPlusOne),
        Err(ElfError::TruncatedInput)
    );
    let sections = vec![named(0), named(6), string_table(11, 0, 13)];
    assert_eq!(
        decode_section_names_with(&file, &sections, 2, NameConvention::OffsetPlusOne),
        Ok(strings(&[".text", ".data", ""]))
    );
}

#[test]
fn plus_one_of_the_largest_offset_does_not_wrap() {
    let file = b"\0abc\0".to_vec();
    let sections = vec![string_table(u32::MAX, 0, 5)];
    assert_eq!(
        decode_section_names_with(&file, &sections, 0, NameConvention::OffsetPlusOne),
        Err(ElfError::TruncatedInput)
    );
    assert_eq!(
        decode_section_names_with(&file, &sections, 0, NameConvention::OffsetAsIs),
        Err(ElfError::TruncatedInput)
    );
}

#[test]
fn a_string_table_index_out_of_range_is_invalid() {
    let (file, offsets) = pool_of(&["a", "b"]);
    let size = file.len() as u64 - 32;
    let sections = vec![named(offsets[0]), string_table(offsets[1], 32, size)];
    assert!(decode_section_names(&file, &sections, 1).is_ok());
    assert_eq!(
        decode_section_names(&file, &sections, 2),
        Err(ElfError::InvalidStringTableIndex)
    );
    assert_eq!(
        decode_section_names(&file, &sections, u16::MAX),
        Err(ElfError::InvalidStringTableIndex)
    );
    assert_eq!(decode_section_names(&file, &[], 0), Err(ElfError::InvalidStringTableIndex));
}

#[test]
fn a_string_table_beyond_the_end_is_truncated() {
    let (file, _) = pool_of(&["a"]);
    let len = file.len() as u64;
    assert_eq!(
        decode_section_names(&file, &[string_table(0, 32, len - 31)], 0),
        Err(ElfError::TruncatedInput)
    );
    assert_eq!(
        decode_section_names(&file, &[string_table(0, len + 1, 0)], 0),
        Err(ElfError::TruncatedInput)
    );
    assert_eq!(
        decode_section_names(&file, &[string_table(0, u64::MAX, 2)], 0),
        Err(ElfError::TruncatedInput)
    );
    assert_eq!(
        decode_section_names(&file, &[string_table(0, 2, u64::MAX)], 0),
        Err(ElfError::TruncatedInput)
    );
}

#[test]
fn a_name_without_its_zero_byte_is_truncated() {
    let file = b"\0.text\0.data".to_vec();
    let sections = vec![named(1), named(7), string_table(0, 0, 12)];
    assert_eq!(decode_section_names(&file, &sections, 2), Err(ElfError::TruncatedInput));
    let sections = vec![named(1), string_table(0, 0, 12)];
    assert_eq!(decode_section_names(&file, &sections, 1), Ok(strings(&[".text", ""])));
}

#[test]
fn the_scan_stops_at_the_end_of_the_pool_not_of_the_file() {
    let file = b"\0.text\0.data\0".to_vec();
    let sections = vec![named(7), string_table(0, 0, 12)];
    assert_eq!(decode_section_names(&file, &sections, 1), Err(ElfError::TruncatedInput));
    let sections = vec![named(7), string_table(0, 0, 13)];
    assert_eq!(decode_section_names(&file, &sections, 1), Ok(strings(&[".data", ""])));
}

#[test]
fn a_name_offset_outside_the_pool_is_truncated() {
    let file = b"\0.text\0".to_vec();
    for offset in [7u32, 8, 1000, u32::MAX] {
        let sections = vec![named(offset), string_table(0, 0, 7)];
        assert_eq!(
            decode_section_names(&file, &sections, 1),
            Err(ElfError::TruncatedInput),
            "offset {}",
            offset
        );
    }
    let sections = vec![named(6), string_table(0, 0, 7)];
    assert_eq!(decode_section_names(&file, &sections, 1), Ok(strings(&["", ""])));
}

#[test]
fn an_empty_pool_has_no_names() {
    let sections = vec![string_table(0, 0, 0)];
    assert_eq!(decode_section_names(&[], &sections, 0), Err(ElfError::TruncatedInput));
}

#[test]
fn a_name_that_is_not_utf8_is_an_invalid_encoding() {
    let cases: [&[u8]; 6] = [
        b"\0\xff\0",
        b"\0ab\x80\0",
        b"\0\xc0\xaf\0",
        b"\0\xed\xa0\x80\0",
        b"\0\xf4\x90\x80\x80\0",
        b"\0\xe2\x82\0",
    ];
    for pool in cases {
        let sections = vec![named(1), string_table(0, 0, pool.len() as u64)];
        assert_eq!(
            decode_section_names(pool, &sections, 1),
            Err(ElfError::InvalidEncoding),
            "pool {:?}",
            pool
        );
    }
}

#[test]
fn the_first_unreadable_name_decides_the_error() {
    let file = b"\0\xff\0ok\0tail".to_vec();
    let pool = string_table(0, 0, file.len() as u64);
    assert_eq!(
        decode_section_names(&file, &[pool, named(3), named(1), named(6)], 0),
        Err(ElfError::InvalidEncoding)
    );
    assert_eq!(
        decode_section_names(&file, &[pool, named(3), named(6), named(1)], 0),
        Err(ElfError::TruncatedInput)
    );
    assert_eq!(
        decode_section_names(&file, &[pool, named(3), named(3)], 0),
        Ok(strings(&["", "ok", "ok"]))
    );
}

#[test]
fn a_bad_index_is_reported_before_any_name() {
    let file = b"\xff\xff".to_vec();
    assert_eq!(
        decode_section_names(&file, &[named(0), named(1)], 2),
        Err(ElfError::InvalidStringTableIndex)
    );
}

#[test]
fn read_name_reads_up_to_the_first_zero_byte() {
    let pool = b"\0.text\0.data\0";
    assert_eq!(read_name(pool, 0), Ok(String::new()));
    assert_eq!(read_name(pool, 1), Ok(".text".to_string()));
    assert_eq!(read_name(pool, 2), Ok("text".to_string()));
    assert_eq!(read_name(pool, 6), Ok(String::new()));
    assert_eq!(read_name(pool, 7), Ok(".data".to_string()));
    assert_eq!(read_name(pool, 12), Ok(String::new()));
    assert_eq!(read_name(pool, 13), Err(ElfError::TruncatedInput));
    assert_eq!(read_name(pool, u64::MAX), Err(ElfError::TruncatedInput));
    assert_eq!(read_name(b"", 0), Err(ElfError::TruncatedInput));
    assert_eq!(read_name(b"abc", 0), Err(ElfError::TruncatedInput));
    assert_eq!(read_name(b"abc\0", 0), Ok("abc".to_string()));
}

#[test]
fn read_name_gives_the_text_not_the_bytes() {
    let pool = "\0é€𝄞\0".as_bytes();
    let name = read_name(pool, 1).unwrap();
    assert_eq!(name.chars().count(), 3);
    assert_eq!(name.len(), 9);
    assert_eq!(name, "é€𝄞");
    assert_eq!(read_name(pool, 2), Err(ElfError::InvalidEncoding));
    assert_eq!(read_name(b"\xfe\0", 0), Err(ElfError::InvalidEncoding));
}

#[test]
fn section_bytes_is_the_range_the_section_covers() {
    let file: Vec<u8> = (0u8..100).collect();
    assert_eq!(section_bytes(&file, &string_table(0, 10, 5)), Ok(&file[10..15]));
    assert_eq!(section_bytes(&file, &string_table(0, 0, 100)), Ok(&file[..]));
    assert_eq!(section_bytes(&file, &string_table(0, 100, 0)), Ok(&file[100..]));
    assert_eq!(section_bytes(&file, &string_table(0, 0, 0)), Ok(&file[..0]));
    assert_eq!(
        section_bytes(&file, &string_table(0, 0, 101)),
        Err(ElfError::TruncatedInput)
    );
    assert_eq!(
        section_bytes(&file, &string_table(0, 101, 0)),
        Err(ElfError::TruncatedInput)
    );
    assert_eq!(
        section_bytes(&file, &string_table(0, 99, 2)),
        Err(ElfError::TruncatedInput)
    );
    assert_eq!(
        section_bytes(&file, &string_table(0, u64::MAX, u64::MAX)),
        Err(ElfError::TruncatedInput)
    );
}
