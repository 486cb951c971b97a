use elf_sections::parse_section_header;
use elf_sections::sanity_check;
use elf_sections::Class;
use elf_sections::ElfFile;
use elf_sections::HeaderSummary;
use elf_sections::ParseError;
use elf_sections::SectionHeader;
use elf_sections::SectionIter;
use elf_sections::ShType;
use elf_sections::ShType_;

fn sh32_bytes(
    name: u32,
    type_: u32,
    flags: u32,
    address: u32,
    offset: u32,
    size: u32,
    link: u32,
    info: u32,
    align: u32,
    entry_size: u32,
) -> Vec<u8> {
    let mut v = Vec::new();
    for x in [name, type_, flags, address, offset, size, link, info, align, entry_size] {
        v.extend_from_slice(&x.to_le_bytes());
    }
    v
}

fn sh64_bytes(
    name: u32,
    type_: u32,
    flags: u64,
    address: u64,
    offset: u64,
    size: u64,
    link: u32,
    info: u32,
    align: u64,
    entry_size: u64,
) -> Vec<u8> {
    let mut v = Vec::new();
    v.extend_from_slice(&name.to_le_bytes());
    v.extend_from_slice(&type_.to_le_bytes());
    v.extend_from_slice(&flags.to_le_bytes());
    v.extend_from_slice(&address.to_le_bytes());
    v.extend_from_slice(&offset.to_le_bytes());
    v.extend_from_slice(&size.to_le_bytes());
    v.extend_from_slice(&link.to_le_bytes());
    v.extend_from_slice(&info.to_le_bytes());
    v.extend_from_slice(&align.to_le_bytes());
    v.extend_from_slice(&entry_size.to_le_bytes());
    v
}

fn file32(payload: &[u8], entries: &[Vec<u8>], strndx: u16) -> ElfFile {
    let mut input = payload.to_vec();
    let sh_offset = input.len() as u64;
    for e in entries {
        input.extend_from_slice(e);
    }
    ElfFile {
        input,
        header: HeaderSummary {
            class: Class::ThirtyTwo,
            sh_offset,
            sh_entry_size: 40,
            sh_count: entries.len() as u16,
            sh_str_index: strndx,
        },
    }
}

fn file64(payload: &[u8], entries: &[Vec<u8>], strndx: u16) -> ElfFile {
    let mut input = payload.to_vec();
    let sh_offset = input.len() as u64;
    for e in entries {
        input.extend_from_slice(e);
    }
    ElfFile {
        input,
        header: HeaderSummary {
            class: Class::SixtyFour,
            sh_offset,
            sh_entry_size: 64,
            sh_count: entries.len() as u16,
            sh_str_index: strndx,
        },
    }
}

#[test]
fn round_trip_32() {
    let entry = sh32_bytes(1, 3, 5, 7, 9, 11, 13, 15, 17, 19);
    let file = file32(&[], &[entry], 0);
    let h = parse_section_header(&file.input, file.header, 0).unwrap();
    assert_eq!(h.name(), 1);
    assert_eq!(h.type_(), ShType_(3));
    assert_eq!(h.flags(), 5);
    assert_eq!(h.address(), 7);
    assert_eq!(h.offset(), 9);
    assert_eq!(h.size(), 11);
    assert_eq!(h.link(), 13);
    assert_eq!(h.info(), 15);
    assert_eq!(h.align(), 17);
    assert_eq!(h.entry_size(), 19);
}

#[test]
fn round_trip_64() {
    let entry = sh64_bytes(
        0x11223344,
        4,
        0x1_0000_0001,
        0x2_0000_0002,
        0x3_0000_0003,
        0x4_0000_0004,
        21,
        22,
        0x5_0000_0005,
        0x6_0000_0006,
    );
    let file = file64(&[], &[entry], 0);
    let h = parse_section_header(&file.input, file.header, 0).unwrap();
    assert_eq!(h.name(), 0x11223344);
    assert_eq!(h.type_(), ShType_(4));
    assert_eq!(h.flags(), 0x1_0000_0001);
    assert_eq!(h.address(), 0x2_0000_0002);
    assert_eq!(h.offset(), 0x3_0000_0003);
    assert_eq!(h.size(), 0x4_0000_0004);
    assert_eq!(h.link(), 21);
    assert_eq!(h.info(), 22);
    assert_eq!(h.align(), 0x5_0000_0005);
    assert_eq!(h.entry_size(), 0x6_0000_0006);
}

#[test]
fn reserved_index_is_rejected() {
    let entry = sh64_bytes(0, 0, 0, 0, 0, 0, 0, 0, 0, 0);
    let file = file64(&[], &[entry], 0);
    assert_eq!(
        parse_section_header(&file.input, file.header, 0xff00),
        Err(ParseError::IndexOutOfRange)
    );
    assert_eq!(
        parse_section_header(&file.input, file.header, 0xffff),
        Err(ParseError::IndexOutOfRange)
    );
}

#[test]
fn short_table_is_rejected() {
    let entry = sh64_bytes(0, 0, 0, 0, 0, 0, 0, 0, 0, 0);
    let file = file64(&[], &[entry], 0);
    // Index 1 lies past the one-entry table.
    assert_eq!(
        parse_section_header(&file.input, file.header, 1),
        Err(ParseError::BufferTooShort)
    );
}

#[test]
fn wrong_entry_size_is_rejected() {
    let entry = sh64_bytes(0, 1, 0, 0, 0, 0, 0, 0, 0, 0);
    let mut file = file64(&[], &[entry], 0);
    file.header.sh_entry_size = 40;
    assert_eq!(
        parse_section_header(&file.input, file.header, 0),
        Err(ParseError::BufferTooShort)
    );
}

#[test]
fn classify_known_codes() {
    assert_eq!(ShType_(0).as_sh_type(), Ok(ShType::Null));
    assert_eq!(ShType_(1).as_sh_type(), Ok(ShType::ProgBits));
    assert_eq!(ShType_(2).as_sh_type(), Ok(ShType::SymTab));
    assert_eq!(ShType_(3).as_sh_type(), Ok(ShType::StrTab));
    assert_eq!(ShType_(4).as_sh_type(), Ok(ShType::Rela));
    assert_eq!(ShType_(5).as_sh_type(), Ok(ShType::Hash));
    assert_eq!(ShType_(6).as_sh_type(), Ok(ShType::Dynamic));
    assert_eq!(ShType_(7).as_sh_type(), Ok(ShType::Note));
    assert_eq!(ShType_(8).as_sh_type(), Ok(ShType::NoBits));
    assert_eq!(ShType_(9).as_sh_type(), Ok(ShType::Rel));
    assert_eq!(ShType_(10).as_sh_type(), Ok(ShType::ShLib));
    assert_eq!(ShType_(11).as_sh_type(), Ok(ShType::DynSym));
    assert_eq!(ShType_(14).as_sh_type(), Ok(ShType::InitArray));
    assert_eq!(ShType_(15).as_sh_type(), Ok(ShType::FiniArray));
    assert_eq!(ShType_(16).as_sh_type(), Ok(ShType::PreInitArray));
    assert_eq!(ShType_(17).as_sh_type(), Ok(ShType::Group));
    assert_eq!(ShType_(18).as_sh_type(), Ok(ShType::SymTabShIndex));
    assert_eq!(
        ShType_(0x60000000).as_sh_type(),
        Ok(ShType::OsSpecific(0x60000000))
    );
    assert_eq!(
        ShType_(0x6fffffff).as_sh_type(),
        Ok(ShType::OsSpecific(0x6fffffff))
    );
    assert_eq!(
        ShType_(0x70000000).as_sh_type(),
        Ok(ShType::ProcessorSpecific(0x70000000))
    );
    assert_eq!(
        ShType_(0x7fffffff).as_sh_type(),
        Ok(ShType::ProcessorSpecific(0x7fffffff))
    );
    assert_eq!(ShType_(0x80000000).as_sh_type(), Ok(ShType::User(0x80000000)));
    assert_eq!(ShType_(0xffffffff).as_sh_type(), Ok(ShType::User(0xffffffff)));
}

#[test]
fn classify_undefined_codes() {
    assert_eq!(ShType_(12).as_sh_type(), Err(ParseError::InvalidTypeCode(12)));
    assert_eq!(ShType_(13).as_sh_type(), Err(ParseError::InvalidTypeCode(13)));
    assert_eq!(ShType_(19).as_sh_type(), Err(ParseError::InvalidTypeCode(19)));
    assert_eq!(
        ShType_(0x5fffffff).as_sh_type(),
        Err(ParseError::InvalidTypeCode(0x5fffffff))
    );
}

fn name_lookup_file() -> ElfFile {
    // String table "\0foo\0bar\0" at offset 0, then the table:
    // entry 0 is the string table itself, entry 1 a ProgBits section
    // named "foo", entry 2 a Null section.
    let strtab = b"\0foo\0bar\0";
    let e0 = sh32_bytes(0, 3, 0, 0, 0, strtab.len() as u32, 0, 0, 0, 0);
    let e1 = sh32_bytes(1, 1, 0, 0, 0, 0, 0, 0, 0, 0);
    let e2 = sh32_bytes(5, 0, 0, 0, 0, 0, 0, 0, 0, 0);
    file32(strtab, &[e0, e1, e2], 0)
}

#[test]
fn get_name_reads_string_table() {
    let file = name_lookup_file();
    let h1 = parse_section_header(&file.input, file.header, 1).unwrap();
    assert_eq!(h1.get_name(&file), Ok(b"foo".to_vec()));
    let h0 = parse_section_header(&file.input, file.header, 0).unwrap();
    assert_eq!(h0.get_name(&file), Ok(b"".to_vec()));
}

#[test]
fn get_name_of_null_section_fails() {
    let file = name_lookup_file();
    let h2 = parse_section_header(&file.input, file.header, 2).unwrap();
    assert_eq!(h2.get_name(&file), Err(ParseError::NullSectionHasNoName));
}

#[test]
fn get_name_past_string_table_fails() {
    let strtab = b"\0foo\0bar\0";
    let e0 = sh32_bytes(0, 3, 0, 0, 0, strtab.len() as u32, 0, 0, 0, 0);
    let e1 = sh32_bytes(100, 1, 0, 0, 0, 0, 0, 0, 0, 0);
    let file = file32(strtab, &[e0, e1], 0);
    let h = parse_section_header(&file.input, file.header, 1).unwrap();
    assert_eq!(h.get_name(&file), Err(ParseError::BufferTooShort));
}

#[test]
fn get_name_with_reserved_string_table_index_fails() {
    let mut file = name_lookup_file();
    file.header.sh_str_index = 0xff00;
    let h = parse_section_header(&file.input, file.header, 1).unwrap();
    assert_eq!(h.get_name(&file), Err(ParseError::IndexOutOfRange));
}

#[test]
fn raw_data_of_null_section_fails() {
    let entry = sh64_bytes(0, 0, 0, 0, 0, 4, 0, 0, 0, 0);
    let file = file64(&[9, 9, 9, 9], &[entry], 0);
    let h = parse_section_header(&file.input, file.header, 0).unwrap();
    assert_eq!(h.raw_data(&file), Err(ParseError::NullSectionHasNoData));
}

#[test]
fn raw_data_length_equals_declared_size() {
    let payload = [10u8, 20, 30, 40, 50, 60];
    let entry = sh64_bytes(0, 1, 0, 0, 2, 3, 0, 0, 0, 0);
    let file = file64(&payload, &[entry], 0);
    let h = parse_section_header(&file.input, file.header, 0).unwrap();
    let data = h.raw_data(&file).unwrap();
    assert_eq!(data.len(), 3);
    assert_eq!(data, &[30, 40, 50]);
}

#[test]
fn raw_data_out_of_bounds_fails() {
    let entry = sh64_bytes(0, 1, 0, 0, 4, u64::MAX, 0, 0, 0, 0);
    let file = file64(&[0, 0, 0, 0], &[entry], 0);
    let h = parse_section_header(&file.input, file.header, 0).unwrap();
    assert_eq!(h.raw_data(&file), Err(ParseError::BufferTooShort));
}

#[test]
fn iterator_yields_each_entry_in_order() {
    let e0 = sh64_bytes(100, 1, 0, 0, 0, 0, 0, 0, 0, 0);
    let e1 = sh64_bytes(101, 8, 0, 0, 0, 0, 0, 0, 0, 0);
    let e2 = sh64_bytes(102, 3, 0, 0, 0, 0, 0, 0, 0, 0);
    let file = file64(&[], &[e0, e1, e2], 0);
    let mut iter = SectionIter { file: &file, next_index: 0 };
    let mut names = Vec::new();
    while let Some(item) = iter.next() {
        names.push(item.unwrap().name());
    }
    assert_eq!(names, vec![100, 101, 102]);
    assert!(iter.next().is_none());
}

#[test]
fn sanity_check_accepts_headers() {
    let entry = sh64_bytes(0, 1, 0, 0, 0, 0, 0, 0, 0, 0);
    let file = file64(&[], &[entry], 0);
    let h = parse_section_header(&file.input, file.header, 0).unwrap();
    assert_eq!(sanity_check(h, &file), Ok(()));
}

#[test]
fn errors_describe_themselves() {
    assert!(!ParseError::IndexOutOfRange.describe().is_empty());
    assert!(!ParseError::InvalidTypeCode(12).describe().is_empty());
}

#[test]
fn header_handle_width_matches_class() {
    let e32 = sh32_bytes(0, 1, 0, 0, 0, 0, 0, 0, 0, 0);
    let fa = file32(&[], &[e32], 0);
    assert!(matches!(
        parse_section_header(&fa.input, fa.header, 0).unwrap(),
        SectionHeader::Sh32(_)
    ));
    let e64 = sh64_bytes(0, 1, 0, 0, 0, 0, 0, 0, 0, 0);
    let fb = file64(&[], &[e64], 0);
    assert!(matches!(
        parse_section_header(&fb.input, fb.header, 0).unwrap(),
        SectionHeader::Sh64(_)
    ));
}
