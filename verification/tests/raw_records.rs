use libelfctf::elf::header::parse_header;
use libelfctf::elf::raw::{
    Elf32_Dyn, Elf32_Ehdr, Elf32_Phdr, Elf32_Rel, Elf32_Rela, Elf32_Shdr, Elf32_Sym, Elf64_Dyn,
    Elf64_Ehdr, Elf64_Phdr, Elf64_Rel, Elf64_Rela, Elf64_Shdr, Elf64_Sym, RawDynamic,
    RawElfHeader, RawProgramHeader, RawRelocation, RawSectionHeader, RawSymbol,
};
use libelfctf::elf::{DynamicTag, ElfClass, ElfError, RelocationType, SectionType, SegmentType};

fn bytes_0_to(n: usize) -> Vec<u8> {
    (0..n).map(|i| i as u8).collect()
}

#[test]
fn header_records_decode_little_endian() {
    let b = bytes_0_to(64);
    let h = Elf64_Ehdr::from_bytes(&b).unwrap();
    assert_eq!(h.e_type, 0x1110);
    assert_eq!(h.e_entry, 0x1f1e1d1c1b1a1918);
    assert_eq!(h.e_shstrndx, 0x3f3e);
    assert_eq!(RawElfHeader::magic(&h), [0, 1, 2, 3]);
    assert_eq!(RawElfHeader::class(&h), ElfClass::Unknown(4));
    assert_eq!(RawElfHeader::section_name_table_index(&h), 0x3f3e);
    let h = Elf32_Ehdr::from_bytes(&b[..52]).unwrap();
    assert_eq!(h.e_entry, 0x1b1a1918);
    assert_eq!(RawElfHeader::entry(&h), 0x1b1a1918);
    assert_eq!(h.e_shstrndx, 0x3332);
    assert!(Elf32_Ehdr::from_bytes(&b[..51]).is_err());
    assert!(Elf64_Ehdr::from_bytes(&b[..63]).is_err());
}

#[test]
fn parse_header_lengths() {
    let mut b = bytes_0_to(64);
    b[4] = 2;
    assert_eq!(parse_header::<Elf64_Ehdr>(&b[..63]).err(), Some(ElfError::UnexpectedEOF));
    let h = parse_header::<Elf64_Ehdr>(&b).unwrap();
    assert_eq!(h.class(), ElfClass::Elf64);
    assert_eq!(h.section_header_offset(), 0x2f2e2d2c2b2a2928);
    let h = parse_header::<Elf32_Ehdr>(&b[..52]).unwrap();
    assert_eq!(h.section_header_offset(), 0x23222120);
}

#[test]
fn program_header_records() {
    let b = bytes_0_to(56);
    let p = Elf64_Phdr::from_bytes(&b).unwrap();
    assert_eq!(RawProgramHeader::segment_type(&p), SegmentType::Unknown(0x03020100));
    assert_eq!(RawProgramHeader::flags(&p).bits(), 0x07060504);
    assert_eq!(RawProgramHeader::alignment(&p), 0x3736353433323130);
    let p = Elf32_Phdr::from_bytes(&b[..32]).unwrap();
    assert_eq!(RawProgramHeader::flags(&p).bits(), 0x1b1a1918);
    assert_eq!(RawProgramHeader::file_offset(&p), 0x07060504);
    assert!(Elf32_Phdr::from_bytes(&b[..31]).is_err());
}

#[test]
fn section_header_records() {
    let mut b = vec![0u8; 64];
    b[4] = 2;
    b[8] = 0xff;
    b[9] = 0xff;
    let s = Elf64_Shdr::from_bytes(&b).unwrap();
    assert_eq!(RawSectionHeader::section_type(&s), SectionType::SymbolTable);
    assert_eq!(RawSectionHeader::flags(&s).bits(), 0x7f7);
    let s = Elf32_Shdr::from_bytes(&b[..40]).unwrap();
    assert_eq!(RawSectionHeader::section_type(&s), SectionType::SymbolTable);
    assert!(Elf32_Shdr::from_bytes(&b[..39]).is_err());
}

#[test]
fn symbol_records() {
    let b = bytes_0_to(24);
    let s = Elf64_Sym::from_bytes(&b).unwrap();
    assert_eq!(RawSymbol::name_offset(&s), 0x03020100);
    assert_eq!(RawSymbol::info(&s), 4);
    assert_eq!(RawSymbol::section_index(&s), 0x0706);
    assert_eq!(RawSymbol::value(&s), 0x0f0e0d0c0b0a0908);
    let s = Elf32_Sym::from_bytes(&b[..16]).unwrap();
    assert_eq!(RawSymbol::info(&s), 12);
    assert_eq!(RawSymbol::size(&s), 0x0b0a0908);
    assert!(Elf32_Sym::from_bytes(&b[..15]).is_err());
}

#[test]
fn relocation_records() {
    let mut b = vec![0u8; 24];
    b[8..16].copy_from_slice(&0x0000_0005_0000_0007u64.to_le_bytes());
    b[16..24].copy_from_slice(&(-8i64).to_le_bytes());
    let r = Elf64_Rela::from_bytes(&b).unwrap();
    assert_eq!(r.symbol_index(), 5);
    assert_eq!(r.relocation_type(), RelocationType(7));
    assert_eq!(r.addend(), Some(-8));
    let r = Elf64_Rel::from_bytes(&b[..16]).unwrap();
    assert_eq!(r.addend(), None);
    assert_eq!(r.info(), 0x0000_0005_0000_0007);

    let mut c = vec![0u8; 12];
    c[4..8].copy_from_slice(&0x0107u32.to_le_bytes());
    c[8..12].copy_from_slice(&(-2i32).to_le_bytes());
    let r = Elf32_Rela::from_bytes(&c).unwrap();
    assert_eq!(r.addend(), Some(-2));
    assert_eq!(r.symbol_index(), 0);
    assert_eq!(r.relocation_type(), RelocationType(0x0107));
    let r = Elf32_Rel::from_bytes(&c[..8]).unwrap();
    assert_eq!(r.offset(), 0);
    assert!(Elf32_Rel::from_bytes(&c[..7]).is_err());
}

#[test]
fn dynamic_records() {
    let mut b = vec![0u8; 16];
    b[0..8].copy_from_slice(&(-3i64).to_le_bytes());
    b[8..16].copy_from_slice(&9u64.to_le_bytes());
    let d = Elf64_Dyn::from_bytes(&b).unwrap();
    assert_eq!(d.tag(), DynamicTag::Unknown(-3));
    assert_eq!(RawDynamic::value(&d), 9);
    let mut c = vec![0u8; 8];
    c[0..4].copy_from_slice(&(-1i32).to_le_bytes());
    c[4..8].copy_from_slice(&7u32.to_le_bytes());
    let d = Elf32_Dyn::from_bytes(&c).unwrap();
    assert_eq!(d.tag(), DynamicTag::Unknown(-1));
    assert_eq!(RawDynamic::value(&d), 7);
    c[0..4].copy_from_slice(&21i32.to_le_bytes());
    assert_eq!(Elf32_Dyn::from_bytes(&c).unwrap().tag(), DynamicTag::Debug);
}
