use elf_sections::parse_section_header;
use elf_sections::Class;
use elf_sections::CompressionType;
use elf_sections::CompressionType_;
use elf_sections::ElfFile;
use elf_sections::HeaderSummary;
use elf_sections::NoteHeader;
use elf_sections::ParseError;
use elf_sections::Rel;
use elf_sections::Rela;
use elf_sections::SectionData;
use elf_sections::compress::parse_compression_header32;
use elf_sections::compress::parse_compression_header64;

fn sh64_bytes(name: u32, type_: u32, offset: u64, size: u64) -> Vec<u8> {
    let mut v = Vec::new();
    v.extend_from_slice(&name.to_le_bytes());
    v.extend_from_slice(&type_.to_le_bytes());
    for x in [0u64, 0, offset, size] {
        v.extend_from_slice(&x.to_le_bytes());
    }
    v.extend_from_slice(&0u32.to_le_bytes());
    v.extend_from_slice(&0u32.to_le_bytes());
    v.extend_from_slice(&0u64.to_le_bytes());
    v.extend_from_slice(&0u64.to_le_bytes());
    v
}

fn sh32_bytes(name: u32, type_: u32, offset: u32, size: u32) -> Vec<u8> {
    let mut v = Vec::new();
    for x in [name, type_, 0, 0, offset, size, 0, 0, 0, 0] {
        v.extend_from_slice(&x.to_le_bytes());
    }
    v
}

fn one_section_file64(payload: &[u8], type_: u32, size: u64) -> ElfFile {
    let entry = sh64_bytes(0, type_, 0, size);
    let mut input = payload.to_vec();
    let sh_offset = input.len() as u64;
    input.extend_from_slice(&entry);
    ElfFile {
        input,
        header: HeaderSummary {
            class: Class::SixtyFour,
            sh_offset,
            sh_entry_size: 64,
            sh_count: 1,
            sh_str_index: 0,
        },
    }
}

fn one_section_file32(payload: &[u8], type_: u32, size: u32) -> ElfFile {
    let entry = sh32_bytes(0, type_, 0, size);
    let mut input = payload.to_vec();
    let sh_offset = input.len() as u64;
    input.extend_from_slice(&entry);
    ElfFile {
        input,
        header: HeaderSummary {
            class: Class::ThirtyTwo,
            sh_offset,
            sh_entry_size: 40,
            sh_count: 1,
            sh_str_index: 0,
        },
    }
}

fn data64(payload: &[u8], type_: u32, size: u64) -> Result<SectionData<'static>, ParseError> {
    let file = one_section_file64(payload, type_, size);
    let h = parse_section_header(&file.input, file.header, 0).unwrap();
    // Decode into owned form by matching and rebuilding where needed.
    match h.get_data(&file) {
        Ok(SectionData::Empty) => Ok(SectionData::Empty),
        Ok(SectionData::Undefined(d)) => Ok(SectionData::Undefined(Box::leak(d.to_vec().into_boxed_slice()))),
        Ok(SectionData::StrArray(d)) => Ok(SectionData::StrArray(Box::leak(d.to_vec().into_boxed_slice()))),
        Ok(SectionData::Group { flags, indicies }) => Ok(SectionData::Group { flags, indicies }),
        Ok(SectionData::FnArray32(v)) => Ok(SectionData::FnArray32(v)),
        Ok(SectionData::FnArray64(v)) => Ok(SectionData::FnArray64(v)),
        Ok(SectionData::SymbolTable32(v)) => Ok(SectionData::SymbolTable32(v)),
        Ok(SectionData::SymbolTable64(v)) => Ok(SectionData::SymbolTable64(v)),
        Ok(SectionData::DynSymbolTable32(v)) => Ok(SectionData::DynSymbolTable32(v)),
        Ok(SectionData::DynSymbolTable64(v)) => Ok(SectionData::DynSymbolTable64(v)),
        Ok(SectionData::SymTabShIndex(v)) => Ok(SectionData::SymTabShIndex(v)),
        Ok(SectionData::Note64(h, tr)) => {
            Ok(SectionData::Note64(h, Box::leak(tr.to_vec().into_boxed_slice())))
        }
        Ok(SectionData::Rela32(v)) => Ok(SectionData::Rela32(v)),
        Ok(SectionData::Rela64(v)) => Ok(SectionData::Rela64(v)),
        Ok(SectionData::Rel32(v)) => Ok(SectionData::Rel32(v)),
        Ok(SectionData::Rel64(v)) => Ok(SectionData::Rel64(v)),
        Ok(SectionData::Dynamic32(v)) => Ok(SectionData::Dynamic32(v)),
        Ok(SectionData::Dynamic64(v)) => Ok(SectionData::Dynamic64(v)),
        Ok(SectionData::HashTable(t)) => Ok(SectionData::HashTable(t)),
        Err(e) => Err(e),
    }
}

#[test]
fn group_payload_splits_flags_and_indices() {
    let mut payload = Vec::new();
    payload.extend_from_slice(&1u32.to_le_bytes());
    payload.extend_from_slice(&7u32.to_le_bytes());
    payload.extend_from_slice(&9u32.to_le_bytes());
    match data64(&payload, 17, 12).unwrap() {
        SectionData::Group { flags, indicies } => {
            assert_eq!(flags, 1);
            assert_eq!(indicies, vec![7, 9]);
        }
        _ => panic!("expected a group payload"),
    }
}

#[test]
fn rela64_info_field_splits() {
    let r = Rela { offset: 0u64, info: (5u64 << 32) | 9, addend: 0u64 };
    assert_eq!(r.get_symbol_table_index(), 5);
    assert_eq!(r.get_type(), 9);
}

#[test]
fn rela32_info_field_splits() {
    let r = Rela { offset: 0u32, info: (5u32 << 8) | 9, addend: 0u32 };
    assert_eq!(r.get_symbol_table_index(), 5);
    assert_eq!(r.get_type(), 9);
}

#[test]
fn rel_info_field_splits() {
    let r64 = Rel { offset: 0u64, info: (6u64 << 32) | 3 };
    assert_eq!(r64.get_symbol_table_index(), 6);
    assert_eq!(r64.get_type(), 3);
    let r32 = Rel { offset: 0u32, info: (6u32 << 8) | 3 };
    assert_eq!(r32.get_symbol_table_index(), 6);
    assert_eq!(r32.get_type(), 3);
}

#[test]
fn rela64_section_decodes_entries() {
    let mut payload = Vec::new();
    payload.extend_from_slice(&0x1000u64.to_le_bytes());
    payload.extend_from_slice(&(((5u64) << 32) | 9).to_le_bytes());
    payload.extend_from_slice(&(-4i64).to_le_bytes());
    match data64(&payload, 4, 24).unwrap() {
        SectionData::Rela64(v) => {
            assert_eq!(v.len(), 1);
            assert_eq!(v[0].get_offset(), 0x1000);
            assert_eq!(v[0].get_symbol_table_index(), 5);
            assert_eq!(v[0].get_type(), 9);
            assert_eq!(v[0].get_addend(), (-4i64) as u64);
        }
        _ => panic!("expected a Rela64 payload"),
    }
}

#[test]
fn string_scanner_yields_each_string_once() {
    let payload = b"\0foo\0bar\0";
    let sd = SectionData::StrArray(payload);
    let mut it = sd.strings().unwrap();
    assert_eq!(it.next(), Some(b"foo".to_vec()));
    assert_eq!(it.next(), Some(b"bar".to_vec()));
    assert_eq!(it.next(), None);
    assert_eq!(it.next(), None);
}

#[test]
fn string_scanner_yields_unterminated_tail() {
    let payload = b"a\0bc";
    let sd = SectionData::StrArray(payload);
    let mut it = sd.strings().unwrap();
    assert_eq!(it.next(), Some(b"a".to_vec()));
    assert_eq!(it.next(), Some(b"bc".to_vec()));
    assert_eq!(it.next(), None);
}

#[test]
fn string_scanner_skips_empty_strings_only() {
    let payload = b"\0\0\0";
    let sd = SectionData::StrArray(payload);
    let mut it = sd.strings().unwrap();
    assert_eq!(it.next(), None);
}

#[test]
fn strings_on_other_payload_fails() {
    let sd = SectionData::Empty;
    assert!(matches!(sd.strings(), Err(ParseError::NotAStringTable)));
}

#[test]
fn each_type_materializes_to_its_one_shape() {
    let zeros = [0u8; 48];
    assert!(matches!(data64(&zeros, 0, 0).unwrap(), SectionData::Empty));
    assert!(matches!(data64(&zeros, 8, 8).unwrap(), SectionData::Empty));
    assert!(matches!(data64(&zeros, 1, 5).unwrap(), SectionData::Undefined(_)));
    assert!(matches!(data64(&zeros, 10, 5).unwrap(), SectionData::Undefined(_)));
    assert!(matches!(
        data64(&zeros, 0x60000000, 5).unwrap(),
        SectionData::Undefined(_)
    ));
    assert!(matches!(
        data64(&zeros, 0x70000000, 5).unwrap(),
        SectionData::Undefined(_)
    ));
    assert!(matches!(
        data64(&zeros, 0x80000000, 5).unwrap(),
        SectionData::Undefined(_)
    ));
    assert!(matches!(data64(&zeros, 2, 24).unwrap(), SectionData::SymbolTable64(_)));
    assert!(matches!(
        data64(&zeros, 11, 24).unwrap(),
        SectionData::DynSymbolTable64(_)
    ));
    assert!(matches!(data64(&zeros, 3, 6).unwrap(), SectionData::StrArray(_)));
    assert!(matches!(data64(&zeros, 14, 16).unwrap(), SectionData::FnArray64(_)));
    assert!(matches!(data64(&zeros, 15, 16).unwrap(), SectionData::FnArray64(_)));
    assert!(matches!(data64(&zeros, 16, 16).unwrap(), SectionData::FnArray64(_)));
    assert!(matches!(data64(&zeros, 4, 24).unwrap(), SectionData::Rela64(_)));
    assert!(matches!(data64(&zeros, 9, 16).unwrap(), SectionData::Rel64(_)));
    assert!(matches!(data64(&zeros, 6, 16).unwrap(), SectionData::Dynamic64(_)));
    assert!(matches!(data64(&zeros, 17, 12).unwrap(), SectionData::Group { .. }));
    assert!(matches!(
        data64(&zeros, 18, 8).unwrap(),
        SectionData::SymTabShIndex(_)
    ));
    assert!(matches!(data64(&zeros, 7, 16).unwrap(), SectionData::Note64(_, _)));
    assert!(matches!(data64(&zeros, 5, 12).unwrap(), SectionData::HashTable(_)));
}

#[test]
fn thirty_two_bit_widths_materialize() {
    let zeros = [0u8; 48];
    let cases: [(u32, u32); 5] = [(2, 16), (11, 16), (14, 8), (4, 12), (9, 8)];
    for (t, size) in cases {
        let file = one_section_file32(&zeros, t, size);
        let h = parse_section_header(&file.input, file.header, 0).unwrap();
        let d = h.get_data(&file).unwrap();
        match t {
            2 => assert!(matches!(d, SectionData::SymbolTable32(_))),
            11 => assert!(matches!(d, SectionData::DynSymbolTable32(_))),
            14 => assert!(matches!(d, SectionData::FnArray32(_))),
            4 => assert!(matches!(d, SectionData::Rela32(_))),
            9 => assert!(matches!(d, SectionData::Rel32(_))),
            _ => unreachable!(),
        }
    }
    let file = one_section_file32(&zeros, 6, 8);
    let h = parse_section_header(&file.input, file.header, 0).unwrap();
    assert!(matches!(h.get_data(&file).unwrap(), SectionData::Dynamic32(_)));
}

#[test]
fn thirty_two_bit_note_is_unsupported() {
    let zeros = [0u8; 16];
    let file = one_section_file32(&zeros, 7, 16);
    let h = parse_section_header(&file.input, file.header, 0).unwrap();
    assert_eq!(h.get_data(&file).err(), Some(ParseError::UnsupportedNoteWidth));
}

#[test]
fn undefined_type_code_fails_materialization() {
    let zeros = [0u8; 16];
    assert_eq!(data64(&zeros, 12, 4).err(), Some(ParseError::InvalidTypeCode(12)));
    assert_eq!(data64(&zeros, 13, 4).err(), Some(ParseError::InvalidTypeCode(13)));
}

#[test]
fn ragged_symbol_table_fails() {
    let zeros = [0u8; 48];
    assert_eq!(data64(&zeros, 2, 23).err(), Some(ParseError::BufferTooShort));
}

#[test]
fn symbol_entries_decode_fields() {
    let mut payload = Vec::new();
    payload.extend_from_slice(&3u32.to_le_bytes());
    payload.push(0x12);
    payload.push(0x01);
    payload.extend_from_slice(&2u16.to_le_bytes());
    payload.extend_from_slice(&0x1234u64.to_le_bytes());
    payload.extend_from_slice(&8u64.to_le_bytes());
    match data64(&payload, 2, 24).unwrap() {
        SectionData::SymbolTable64(v) => {
            assert_eq!(v.len(), 1);
            assert_eq!(v[0].name, 3);
            assert_eq!(v[0].info, 0x12);
            assert_eq!(v[0].other, 0x01);
            assert_eq!(v[0].shndx, 2);
            assert_eq!(v[0].value, 0x1234);
            assert_eq!(v[0].size, 8);
        }
        _ => panic!("expected a 64-bit symbol table"),
    }
}

#[test]
fn hash_section_reads_header_words() {
    let mut payload = Vec::new();
    payload.extend_from_slice(&2u32.to_le_bytes());
    payload.extend_from_slice(&3u32.to_le_bytes());
    payload.extend_from_slice(&4u32.to_le_bytes());
    match data64(&payload, 5, 12).unwrap() {
        SectionData::HashTable(t) => {
            assert_eq!(t.bucket_count, 2);
            assert_eq!(t.chain_count, 3);
            assert_eq!(t.first_bucket, 4);
        }
        _ => panic!("expected a hash-table payload"),
    }
}

#[test]
fn note_section_splits_header_and_trailing_bytes() {
    let mut payload = Vec::new();
    payload.extend_from_slice(&4u32.to_le_bytes());
    payload.extend_from_slice(&3u32.to_le_bytes());
    payload.extend_from_slice(&42u32.to_le_bytes());
    payload.extend_from_slice(b"abc\0XYZ");
    match data64(&payload, 7, 19).unwrap() {
        SectionData::Note64(h, trailing) => {
            assert_eq!(h.name_size, 4);
            assert_eq!(h.desc_size, 3);
            assert_eq!(h.type_, 42);
            assert_eq!(h.name(trailing), Ok(&b"abc"[..]));
            assert_eq!(h.desc(trailing), Ok(&b"XYZ"[..]));
        }
        _ => panic!("expected a note payload"),
    }
}

#[test]
fn note_name_length_mismatch_fails() {
    let h = NoteHeader { name_size: 5, desc_size: 0, type_: 0 };
    assert_eq!(h.name(b"abc\0"), Err(ParseError::BufferTooShort));
}

#[test]
fn note_desc_past_region_fails() {
    let h = NoteHeader { name_size: 4, desc_size: 10, type_: 0 };
    assert_eq!(h.desc(b"abc\0XYZ"), Err(ParseError::BufferTooShort));
}

#[test]
fn short_note_fails() {
    let zeros = [0u8; 8];
    assert_eq!(data64(&zeros, 7, 8).err(), Some(ParseError::BufferTooShort));
}

#[test]
fn compression_codes_classify() {
    assert_eq!(CompressionType_(1).as_compression_type(), Ok(CompressionType::Zlib));
    assert_eq!(
        CompressionType_(0x60000001).as_compression_type(),
        Ok(CompressionType::OsSpecific(0x60000001))
    );
    assert_eq!(
        CompressionType_(0x70000001).as_compression_type(),
        Ok(CompressionType::ProcessorSpecific(0x70000001))
    );
    assert_eq!(
        CompressionType_(0).as_compression_type(),
        Err(ParseError::InvalidTypeCode(0))
    );
    assert_eq!(
        CompressionType_(2).as_compression_type(),
        Err(ParseError::InvalidTypeCode(2))
    );
}

#[test]
fn compression_headers_decode() {
    let mut b64 = Vec::new();
    b64.extend_from_slice(&1u32.to_le_bytes());
    b64.extend_from_slice(&0u32.to_le_bytes());
    b64.extend_from_slice(&100u64.to_le_bytes());
    b64.extend_from_slice(&8u64.to_le_bytes());
    let h64 = parse_compression_header64(&b64).unwrap();
    assert_eq!(h64.type_, CompressionType_(1));
    assert_eq!(h64.size, 100);
    assert_eq!(h64.align, 8);
    assert_eq!(
        parse_compression_header64(&b64[..20]).err(),
        Some(ParseError::BufferTooShort)
    );

    let mut b32 = Vec::new();
    b32.extend_from_slice(&1u32.to_le_bytes());
    b32.extend_from_slice(&50u32.to_le_bytes());
    b32.extend_from_slice(&4u32.to_le_bytes());
    let h32 = parse_compression_header32(&b32).unwrap();
    assert_eq!(h32.type_, CompressionType_(1));
    assert_eq!(h32.size, 50);
    assert_eq!(h32.align, 4);
    assert_eq!(
        parse_compression_header32(&b32[..8]).err(),
        Some(ParseError::BufferTooShort)
    );
}
