use libelfctf::elf::{
    DynamicTag, ElfClass, ElfError, ElfFile, Endianness, FileType, Machine, RelocationType,
    SectionType, SegmentType, SymbolBinding, SymbolType,
};

// ---------------------------------------------------------------------
// A small writer of ELF images, for both word sizes.
// ---------------------------------------------------------------------

struct Sec {
    name: &'static str,
    ty: u32,
    flags: u64,
    data: Vec<u8>,
    link: u32,
    entsize: u64,
    // Size announced for a NoBits section (its data is not stored).
    nobits_size: u64,
}

fn sec(name: &'static str, ty: u32, data: Vec<u8>, link: u32, entsize: u64) -> Sec {
    Sec { name, ty, flags: 0, data, link, entsize, nobits_size: 0 }
}

fn put(buf: &mut Vec<u8>, off: usize, bytes: &[u8]) {
    if buf.len() < off + bytes.len() {
        buf.resize(off + bytes.len(), 0);
    }
    buf[off..off + bytes.len()].copy_from_slice(bytes);
}

fn word(is64: bool, v: u64) -> Vec<u8> {
    if is64 {
        v.to_le_bytes().to_vec()
    } else {
        (v as u32).to_le_bytes().to_vec()
    }
}

/// Builds an image with one LOAD segment covering the start of the file and
/// the given sections (a null section is added in front, and a section name
/// table, named `.shstrtab`, at the end).
fn build(is64: bool, user: Vec<Sec>) -> (Vec<u8>, Vec<(u64, u64)>) {
    let ehsize: usize = if is64 { 64 } else { 52 };
    let phentsize: usize = if is64 { 56 } else { 32 };
    let shentsize: usize = if is64 { 64 } else { 40 };

    let mut sections = vec![sec("", 0, vec![], 0, 0)];
    sections.extend(user);
    let mut shstrtab = vec![0u8];
    let mut name_offsets = vec![];
    let shstrtab_index = sections.len();
    for s in sections.iter() {
        if s.name.is_empty() {
            name_offsets.push(0u32);
        } else {
            name_offsets.push(shstrtab.len() as u32);
            shstrtab.extend_from_slice(s.name.as_bytes());
            shstrtab.push(0);
        }
    }
    name_offsets.push(shstrtab.len() as u32);
    shstrtab.extend_from_slice(b".shstrtab\0");
    sections.push(sec("", 3, shstrtab, 0, 0));

    let mut buf = vec![0u8; ehsize + phentsize];
    let mut placed = vec![];
    for s in sections.iter() {
        if s.ty == 8 {
            placed.push((0u64, s.nobits_size));
        } else {
            let off = buf.len();
            buf.extend_from_slice(&s.data);
            placed.push((off as u64, s.data.len() as u64));
        }
    }
    let shoff = buf.len();

    // File header.
    let mut ident = vec![0x7f, b'E', b'L', b'F', if is64 { 2 } else { 1 }, 1, 1, 0];
    ident.resize(16, 0);
    put(&mut buf, 0, &ident);
    put(&mut buf, 16, &2u16.to_le_bytes());
    put(&mut buf, 18, &62u16.to_le_bytes());
    put(&mut buf, 20, &1u32.to_le_bytes());
    let mut off = 24;
    for v in [0x401000u64, ehsize as u64, shoff as u64] {
        let w = word(is64, v);
        put(&mut buf, off, &w);
        off += w.len();
    }
    put(&mut buf, off, &0u32.to_le_bytes());
    off += 4;
    for v in [
        ehsize as u16,
        phentsize as u16,
        1u16,
        shentsize as u16,
        sections.len() as u16,
        shstrtab_index as u16,
    ] {
        put(&mut buf, off, &v.to_le_bytes());
        off += 2;
    }

    // Program header: LOAD, R+X, the first 0x40 bytes of the file.
    let ph = ehsize;
    if is64 {
        put(&mut buf, ph, &1u32.to_le_bytes());
        put(&mut buf, ph + 4, &5u32.to_le_bytes());
        for (i, v) in [0u64, 0x400000, 0x400000, 0x40, 0x100, 0x1000].iter().enumerate() {
            put(&mut buf, ph + 8 + 8 * i, &v.to_le_bytes());
        }
    } else {
        for (i, v) in [1u32, 0, 0x400000, 0x400000, 0x40, 0x100, 5, 0x1000].iter().enumerate() {
            put(&mut buf, ph + 4 * i, &v.to_le_bytes());
        }
    }

    // Section headers.
    for (i, s) in sections.iter().enumerate() {
        let base = shoff + i * shentsize;
        let (data_off, size) = placed[i];
        if is64 {
            put(&mut buf, base, &name_offsets[i].to_le_bytes());
            put(&mut buf, base + 4, &s.ty.to_le_bytes());
            put(&mut buf, base + 8, &s.flags.to_le_bytes());
            put(&mut buf, base + 16, &0u64.to_le_bytes());
            put(&mut buf, base + 24, &data_off.to_le_bytes());
            put(&mut buf, base + 32, &size.to_le_bytes());
            put(&mut buf, base + 40, &s.link.to_le_bytes());
            put(&mut buf, base + 44, &0u32.to_le_bytes());
            put(&mut buf, base + 48, &1u64.to_le_bytes());
            put(&mut buf, base + 56, &s.entsize.to_le_bytes());
        } else {
            let fields = [
                name_offsets[i],
                s.ty,
                s.flags as u32,
                0,
                data_off as u32,
                size as u32,
                s.link,
                0,
                1,
                s.entsize as u32,
            ];
            for (j, v) in fields.iter().enumerate() {
                put(&mut buf, base + 4 * j, &v.to_le_bytes());
            }
        }
    }
    (buf, placed)
}

fn sym64(name: u32, info: u8, shndx: u16, value: u64, size: u64) -> Vec<u8> {
    let mut v = name.to_le_bytes().to_vec();
    v.push(info);
    v.push(0);
    v.extend_from_slice(&shndx.to_le_bytes());
    v.extend_from_slice(&value.to_le_bytes());
    v.extend_from_slice(&size.to_le_bytes());
    v
}

fn sym32(name: u32, info: u8, shndx: u16, value: u32, size: u32) -> Vec<u8> {
    let mut v = name.to_le_bytes().to_vec();
    v.extend_from_slice(&value.to_le_bytes());
    v.extend_from_slice(&size.to_le_bytes());
    v.push(info);
    v.push(0);
    v.extend_from_slice(&shndx.to_le_bytes());
    v
}

fn dyn64(tag: i64, val: u64) -> Vec<u8> {
    let mut v = tag.to_le_bytes().to_vec();
    v.extend_from_slice(&val.to_le_bytes());
    v
}

fn dyn32(tag: i32, val: u32) -> Vec<u8> {
    let mut v = tag.to_le_bytes().to_vec();
    v.extend_from_slice(&val.to_le_bytes());
    v
}

fn rela64(offset: u64, info: u64, addend: i64) -> Vec<u8> {
    let mut v = offset.to_le_bytes().to_vec();
    v.extend_from_slice(&info.to_le_bytes());
    v.extend_from_slice(&addend.to_le_bytes());
    v
}

fn rel32(offset: u32, info: u32) -> Vec<u8> {
    let mut v = offset.to_le_bytes().to_vec();
    v.extend_from_slice(&info.to_le_bytes());
    v
}

/// Sections 1..=7: .text, .strtab, .symtab, .dynamic, .rela.text, .bss,
/// .comment; the name table comes last, at index 8.
fn sample64() -> (Vec<u8>, Vec<(u64, u64)>) {
    let mut symtab = sym64(0, 0, 0, 0, 0);
    symtab.extend(sym64(1, 0x12, 1, 0x401000, 4));
    symtab.extend(sym64(6, 0x01, 1, 0x401004, 8));
    symtab.extend(sym64(1000, 0x2a, 0xfff1, 7, 0));
    let mut dynamic = dyn64(1, 1);
    dynamic.extend(dyn64(5, 0x1234));
    dynamic.extend(dyn64(0, 0));
    dynamic.extend(dyn64(6, 9));
    let rela = rela64(0x401002, (1u64 << 32) | 2, -4);
    let mut text = sec(".text", 1, vec![0x90, 0x90, 0xc3, 0x00], 0, 0);
    text.flags = 0x6;
    let mut bss = sec(".bss", 8, vec![], 0, 0);
    bss.nobits_size = 0x10000;
    build(
        true,
        vec![
            text,
            sec(".strtab", 3, b"\0main\0foo\0".to_vec(), 0, 0),
            sec(".symtab", 2, symtab, 2, 24),
            sec(".dynamic", 6, dynamic, 2, 16),
            sec(".rela.text", 4, rela, 3, 24),
            bss,
            sec(".comment", 1, b"abc".to_vec(), 0, 0),
        ],
    )
}

fn sample32() -> (Vec<u8>, Vec<(u64, u64)>) {
    let mut symtab = sym32(0, 0, 0, 0, 0);
    symtab.extend(sym32(1, 0x22, 1, 0x8048000, 2));
    let mut dynamic = dyn32(1, 1);
    dynamic.extend(dyn32(0, 0));
    let rel = rel32(0x8048010, 0x0102);
    build(
        false,
        vec![
            sec(".text", 1, vec![0xc3, 0x90], 0, 0),
            sec(".strtab", 3, b"\0start\0".to_vec(), 0, 0),
            sec(".symtab", 2, symtab, 2, 16),
            sec(".dynamic", 6, dynamic, 2, 8),
            sec(".rel.text", 9, rel, 3, 8),
        ],
    )
}

// ---------------------------------------------------------------------
// Refusals of the identification bytes.
// ---------------------------------------------------------------------

#[test]
fn parse_rejects_short_input() {
    assert_eq!(ElfFile::parse(&[0x7f, b'E', b'L', b'F']).err(), Some(ElfError::UnexpectedEOF));
    assert_eq!(ElfFile::parse(&[]).err(), Some(ElfError::UnexpectedEOF));
}

#[test]
fn parse_rejects_bad_magic() {
    let mut bytes = sample64().0;
    bytes[1] = b'X';
    assert_eq!(ElfFile::parse(&bytes).err(), Some(ElfError::InvalidMagic));
}

#[test]
fn parse_rejects_unknown_class() {
    let mut bytes = sample64().0;
    bytes[4] = 3;
    assert_eq!(ElfFile::parse(&bytes).err(), Some(ElfError::UnknownClass(3)));
    bytes[4] = 0;
    assert_eq!(ElfFile::parse(&bytes).err(), Some(ElfError::UnknownClass(0)));
}

#[test]
fn parse_rejects_truncated_header() {
    let bytes = sample64().0;
    assert_eq!(ElfFile::parse(&bytes[..40]).err(), Some(ElfError::UnexpectedEOF));
    let bytes = sample32().0;
    assert_eq!(ElfFile::parse(&bytes[..50]).err(), Some(ElfError::UnexpectedEOF));
}

// ---------------------------------------------------------------------
// A 64-bit image.
// ---------------------------------------------------------------------

#[test]
fn parse64_header() {
    let (bytes, _) = sample64();
    let elf = ElfFile::parse(&bytes).unwrap();
    let h = elf.header();
    assert_eq!(h.magic(), [0x7f, b'E', b'L', b'F']);
    assert_eq!(h.class(), ElfClass::Elf64);
    assert_eq!(h.endianness(), Endianness::Little);
    assert_eq!(h.file_type(), FileType::Executable);
    assert_eq!(h.machine(), Machine::X86_64);
    assert_eq!(h.version(), 1);
    assert_eq!(h.entry(), 0x401000);
    assert_eq!(h.program_header_offset(), 64);
    assert_eq!(h.header_size(), 64);
    assert_eq!(h.program_header_size(), 56);
    assert_eq!(h.program_header_count(), 1);
    assert_eq!(h.section_header_size(), 64);
    assert_eq!(h.section_header_count(), 9);
    assert_eq!(h.section_name_table_index(), 8);
}

#[test]
fn parse64_segments_borrow_file_bytes() {
    let (bytes, _) = sample64();
    let elf = ElfFile::parse(&bytes).unwrap();
    let segs = elf.segments();
    assert_eq!(segs.len(), 1);
    let s = &segs[0];
    assert_eq!(s.segment_type(), SegmentType::Load);
    assert_eq!(s.file_offset(), 0);
    assert_eq!(s.virtual_address(), 0x400000);
    assert_eq!(s.physical_address(), 0x400000);
    assert_eq!(s.file_size(), 0x40);
    assert_eq!(s.memory_size(), 0x100);
    assert_eq!(s.alignment(), 0x1000);
    assert!(s.flags().readable() && !s.flags().writable() && s.flags().executable());
    assert_eq!(s.data(), &bytes[0..0x40]);
    assert_eq!(s.header().file_size(), 0x40);
    assert_eq!(s.header().segment_type(), SegmentType::Load);
}

#[test]
fn parse64_sections_named_and_sliced() {
    let (bytes, placed) = sample64();
    let elf = ElfFile::parse(&bytes).unwrap();
    let names: Vec<&str> = elf.sections().iter().map(|s| s.name().unwrap()).collect();
    assert_eq!(
        names,
        vec!["", ".text", ".strtab", ".symtab", ".dynamic", ".rela.text", ".bss", ".comment", ".shstrtab"]
    );
    for (i, s) in elf.sections().iter().enumerate() {
        if s.section_type() == SectionType::NoBits {
            assert!(s.data().is_empty());
        } else {
            let (off, size) = placed[i];
            assert_eq!(s.data(), &bytes[off as usize..(off + size) as usize]);
        }
    }
    let text = &elf.sections()[1];
    assert_eq!(text.section_type(), SectionType::ProgramBits);
    assert_eq!(text.data(), &[0x90, 0x90, 0xc3, 0x00]);
    assert!(text.flags().contains(0x4));
    assert_eq!(text.flags().bits(), 0x6);
    assert_eq!(text.alignment(), 1);
    let bss = &elf.sections()[6];
    assert_eq!(bss.section_type(), SectionType::NoBits);
    assert_eq!(bss.size(), 0x10000);
    assert!(bss.data().is_empty());
    assert_eq!(elf.sections()[3].entry_size(), 24);
    assert_eq!(elf.sections()[3].header().entry_size(), 24);
    assert_eq!(elf.sections()[3].name_offset(), elf.sections()[3].header().name_offset());
}

#[test]
fn parse64_symbols() {
    let (bytes, _) = sample64();
    let elf = ElfFile::parse(&bytes).unwrap();
    let syms = elf.symbols();
    assert_eq!(syms.len(), 4);
    assert_eq!(syms[0].name(), Some(""));
    assert_eq!(syms[1].name(), Some("main"));
    assert_eq!(syms[1].binding(), SymbolBinding::Global);
    assert_eq!(syms[1].symbol_type(), SymbolType::Function);
    assert_eq!(syms[1].value(), 0x401000);
    assert_eq!(syms[1].size(), 4);
    assert_eq!(syms[1].section_index(), 1);
    assert_eq!(syms[2].name(), Some("foo"));
    assert_eq!(syms[2].binding(), SymbolBinding::Local);
    assert_eq!(syms[2].symbol_type(), SymbolType::Object);
    // A name offset outside the string table leaves the symbol unnamed.
    assert_eq!(syms[3].name(), None);
    assert_eq!(syms[3].binding(), SymbolBinding::Weak);
    assert_eq!(syms[3].symbol_type(), SymbolType::OsSpecific(10));
    assert_eq!(syms[3].section_index(), 0xfff1);
}

#[test]
fn parse64_dynamic_stops_at_null() {
    let (bytes, _) = sample64();
    let elf = ElfFile::parse(&bytes).unwrap();
    let d = elf.dynamic().as_ref().unwrap();
    assert_eq!(d.section_index(), 4);
    let tags: Vec<DynamicTag> = d.entries().iter().map(|e| e.tag()).collect();
    assert_eq!(tags, vec![DynamicTag::Needed, DynamicTag::StrTab]);
    assert_eq!(d.entries()[1].value(), 0x1234);
    assert_eq!(d.section(elf.sections()).unwrap().name(), Some(".dynamic"));
}

#[test]
fn parse64_relocations() {
    let (bytes, _) = sample64();
    let elf = ElfFile::parse(&bytes).unwrap();
    let rs = elf.relocations();
    assert_eq!(rs.len(), 1);
    assert_eq!(rs[0].section_index(), 5);
    assert_eq!(rs[0].section(elf.sections()).unwrap().name(), Some(".rela.text"));
    let r = &rs[0].relocations()[0];
    assert_eq!(r.offset(), 0x401002);
    assert_eq!(r.symbol_index(), 1);
    assert_eq!(r.relocation_type(), RelocationType(2));
    assert_eq!(r.addend(), Some(-4));
    assert_eq!(r.symbol(elf.symbols()).unwrap().name(), Some("main"));
}

#[test]
fn parse64_sections_by_type() {
    let (bytes, _) = sample64();
    let elf = ElfFile::parse(&bytes).unwrap();
    let progbits: Vec<&str> =
        elf.sections_by_type(SectionType::ProgramBits).iter().map(|s| s.name().unwrap()).collect();
    assert_eq!(progbits, vec![".text", ".comment"]);
    assert!(elf.sections_by_type(SectionType::Hash).is_empty());
}

#[test]
fn parse64_linked_section() {
    let (bytes, _) = sample64();
    let elf = ElfFile::parse(&bytes).unwrap();
    let symtab = &elf.sections()[3];
    assert_eq!(symtab.link(), 2);
    assert_eq!(symtab.linked_section(elf.sections()).unwrap().name(), Some(".strtab"));
    let text = &elf.sections()[1];
    assert_eq!(text.linked_section(elf.sections()).unwrap().name(), Some(""));
    assert!(text.linked_section(&elf.sections()[0..0]).is_none());
}

#[test]
fn parse64_contains_address() {
    let (bytes, _) = sample64();
    let elf = ElfFile::parse(&bytes).unwrap();
    let s = &elf.segments()[0];
    assert!(s.contains_address(0x400000));
    assert!(s.contains_address(0x4000ff));
    assert!(!s.contains_address(0x400100));
    assert!(!s.contains_address(0x3fffff));
}

#[test]
fn contains_address_at_the_top_of_the_address_space() {
    let (mut bytes, _) = sample64();
    // p_vaddr and p_memsz of the only program header: the range
    // [2^64 - 0x100, 2^64 + 0x100) reaches past the largest address.
    set_u64(&mut bytes, 64 + 16, 0xffff_ffff_ffff_ff00);
    set_u64(&mut bytes, 64 + 40, 0x200);
    let elf = ElfFile::parse(&bytes).unwrap();
    let s = &elf.segments()[0];
    assert!(s.contains_address(0xffff_ffff_ffff_ff00));
    assert!(s.contains_address(u64::MAX));
    assert!(!s.contains_address(0xffff_ffff_ffff_feff));
    assert!(!s.contains_address(0));
    assert!(!s.contains_address(0xff));
}

#[test]
fn symbols_concatenate_every_symbol_table() {
    // A static and a dynamic symbol table: the symbols of both, in section
    // order.
    let mut symtab = sym64(0, 0, 0, 0, 0);
    symtab.extend(sym64(1, 0x12, 1, 0x10, 1));
    let mut dynsym = sym64(0, 0, 0, 0, 0);
    dynsym.extend(sym64(4, 0x11, 1, 0x20, 2));
    dynsym.extend(sym64(1, 0x10, 1, 0x30, 3));
    let (bytes, _) = build(
        true,
        vec![
            sec(".text", 1, vec![0xc3], 0, 0),
            sec(".strtab", 3, b"\0ab\0cd\0".to_vec(), 0, 0),
            sec(".symtab", 2, symtab, 2, 24),
            sec(".dynsym", 11, dynsym, 2, 24),
        ],
    );
    let elf = ElfFile::parse(&bytes).unwrap();
    let values: Vec<u64> = elf.symbols().iter().map(|s| s.value()).collect();
    assert_eq!(values, vec![0, 0x10, 0, 0x20, 0x30]);
    let names: Vec<Option<&str>> = elf.symbols().iter().map(|s| s.name()).collect();
    assert_eq!(names, vec![Some(""), Some("ab"), Some(""), Some("cd"), Some("ab")]);
}

#[test]
fn relocations_and_dynamic_in_section_order() {
    // Two relocation tables around two dynamic sections: the tables come in
    // section order and the last dynamic section is the one kept.
    let rela = rela64(0x10, (1u64 << 32) | 1, 0);
    let rel = {
        let mut r = 0x20u64.to_le_bytes().to_vec();
        r.extend(((2u64 << 32) | 3).to_le_bytes());
        r
    };
    let mut first_dynamic = dyn64(1, 1);
    first_dynamic.extend(dyn64(0, 0));
    let mut second_dynamic = dyn64(5, 7);
    second_dynamic.extend(dyn64(0, 0));
    let (bytes, _) = build(
        true,
        vec![
            sec(".rela.a", 4, rela, 0, 24),
            sec(".dynamic", 6, first_dynamic, 0, 16),
            sec(".rel.b", 9, rel, 0, 16),
            sec(".dynamic2", 6, second_dynamic, 0, 16),
        ],
    );
    let elf = ElfFile::parse(&bytes).unwrap();
    let indices: Vec<usize> = elf.relocations().iter().map(|r| r.section_index()).collect();
    assert_eq!(indices, vec![1, 3]);
    assert_eq!(elf.relocations()[1].relocations()[0].offset(), 0x20);
    assert_eq!(elf.relocations()[1].relocations()[0].addend(), None);
    let d = elf.dynamic().as_ref().unwrap();
    assert_eq!(d.section_index(), 4);
    assert_eq!(d.entries()[0].tag(), DynamicTag::StrTab);
    // Without a dynamic section there is none.
    let (bytes, _) = build(true, vec![sec(".text", 1, vec![0xc3], 0, 0)]);
    assert!(ElfFile::parse(&bytes).unwrap().dynamic().is_none());
}

// ---------------------------------------------------------------------
// A 32-bit image.
// ---------------------------------------------------------------------

#[test]
fn parse32_image() {
    let (bytes, placed) = sample32();
    let elf = ElfFile::parse(&bytes).unwrap();
    assert_eq!(elf.header().class(), ElfClass::Elf32);
    assert_eq!(elf.header().header_size(), 52);
    assert_eq!(elf.header().program_header_size(), 32);
    assert_eq!(elf.header().section_header_size(), 40);
    assert_eq!(elf.segments()[0].data(), &bytes[0..0x40]);
    assert_eq!(elf.segments()[0].flags().bits(), 5);
    let names: Vec<&str> = elf.sections().iter().map(|s| s.name().unwrap()).collect();
    assert_eq!(names, vec!["", ".text", ".strtab", ".symtab", ".dynamic", ".rel.text", ".shstrtab"]);
    let (off, size) = placed[1];
    assert_eq!(elf.sections()[1].data(), &bytes[off as usize..(off + size) as usize]);

    let syms = elf.symbols();
    assert_eq!(syms.len(), 2);
    assert_eq!(syms[1].name(), Some("start"));
    assert_eq!(syms[1].binding(), SymbolBinding::Weak);
    assert_eq!(syms[1].symbol_type(), SymbolType::Function);
    assert_eq!(syms[1].value(), 0x8048000);

    let d = elf.dynamic().as_ref().unwrap();
    assert_eq!(d.entries().len(), 1);
    assert_eq!(d.entries()[0].tag(), DynamicTag::Needed);

    // The symbol index is the high word of r_info, which a 32-bit entry
    // does not have; its whole r_info is the type.
    let r = &elf.relocations()[0].relocations()[0];
    assert_eq!(r.offset(), 0x8048010);
    assert_eq!(r.symbol_index(), 0);
    assert_eq!(r.relocation_type(), RelocationType(0x0102));
    assert_eq!(r.addend(), None);
}

// ---------------------------------------------------------------------
// Refusals of the tables.
// ---------------------------------------------------------------------

fn set_u16(bytes: &mut [u8], off: usize, v: u16) {
    bytes[off..off + 2].copy_from_slice(&v.to_le_bytes());
}

fn set_u64(bytes: &mut [u8], off: usize, v: u64) {
    bytes[off..off + 8].copy_from_slice(&v.to_le_bytes());
}

#[test]
fn parse_rejects_segment_outside_file() {
    let (mut bytes, _) = sample64();
    let len = bytes.len() as u64;
    // p_filesz of the only program header.
    set_u64(&mut bytes, 64 + 32, len + 1);
    assert_eq!(ElfFile::parse(&bytes).err(), Some(ElfError::InvalidOffset));
    set_u64(&mut bytes, 64 + 32, len);
    assert!(ElfFile::parse(&bytes).is_ok());
    set_u64(&mut bytes, 64 + 8, u64::MAX);
    assert_eq!(ElfFile::parse(&bytes).err(), Some(ElfError::InvalidOffset));
}

#[test]
fn parse_rejects_program_headers_outside_file() {
    let (mut bytes, _) = sample64();
    let len = bytes.len() as u64;
    set_u64(&mut bytes, 32, len + 1);
    assert_eq!(ElfFile::parse(&bytes).err(), Some(ElfError::InvalidOffset));
    set_u64(&mut bytes, 32, len - 10);
    assert_eq!(ElfFile::parse(&bytes).err(), Some(ElfError::UnexpectedEOF));
}

#[test]
fn parse_rejects_name_table_index() {
    let (mut bytes, _) = sample64();
    set_u16(&mut bytes, 62, 9);
    assert_eq!(ElfFile::parse(&bytes).err(), Some(ElfError::InvalidSectionIndex));
}

#[test]
fn parse_name_table_index_through_section_zero() {
    let (mut bytes, _) = sample64();
    let shoff = u64::from_le_bytes(bytes[40..48].try_into().unwrap()) as usize;
    // e_shstrndx = SHN_XINDEX, and sh_link of section 0 names the table.
    set_u16(&mut bytes, 62, 0xffff);
    bytes[shoff + 40..shoff + 44].copy_from_slice(&8u32.to_le_bytes());
    let elf = ElfFile::parse(&bytes).unwrap();
    assert_eq!(elf.sections()[1].name(), Some(".text"));
    // Without any section there is no section 0 to ask.
    set_u16(&mut bytes, 60, 0);
    assert_eq!(ElfFile::parse(&bytes).err(), Some(ElfError::InvalidSectionIndex));
}

#[test]
fn parse_rejects_zero_symbol_entry_size() {
    let (mut bytes, _) = sample64();
    let shoff = u64::from_le_bytes(bytes[40..48].try_into().unwrap()) as usize;
    // sh_entsize of .symtab (section 3).
    set_u64(&mut bytes, shoff + 3 * 64 + 56, 0);
    assert_eq!(ElfFile::parse(&bytes).err(), Some(ElfError::InvalidEntrySize));
}

#[test]
fn parse_rejects_short_symbol_entries() {
    let (mut bytes, _) = sample64();
    let shoff = u64::from_le_bytes(bytes[40..48].try_into().unwrap()) as usize;
    set_u64(&mut bytes, shoff + 3 * 64 + 56, 8);
    assert_eq!(ElfFile::parse(&bytes).err(), Some(ElfError::UnexpectedEOF));
}

#[test]
fn parse_rejects_zero_dynamic_entry_size() {
    let (mut bytes, _) = sample64();
    let shoff = u64::from_le_bytes(bytes[40..48].try_into().unwrap()) as usize;
    set_u64(&mut bytes, shoff + 4 * 64 + 56, 0);
    assert_eq!(ElfFile::parse(&bytes).err(), Some(ElfError::InvalidEntrySize));
}

#[test]
fn parse_drops_unreadable_relocation_table() {
    let (mut bytes, _) = sample64();
    let shoff = u64::from_le_bytes(bytes[40..48].try_into().unwrap()) as usize;
    set_u64(&mut bytes, shoff + 5 * 64 + 56, 0);
    let elf = ElfFile::parse(&bytes).unwrap();
    assert!(elf.relocations().is_empty());
}

#[test]
fn parse_rejects_unreadable_section_name() {
    let (mut bytes, _) = sample64();
    let shoff = u64::from_le_bytes(bytes[40..48].try_into().unwrap()) as usize;
    // sh_name of .text points past the name table.
    bytes[shoff + 64..shoff + 68].copy_from_slice(&5000u32.to_le_bytes());
    assert_eq!(ElfFile::parse(&bytes).err(), Some(ElfError::InvalidStringOffset));
}

#[test]
fn parse_rejects_section_outside_file() {
    let (mut bytes, _) = sample64();
    let shoff = u64::from_le_bytes(bytes[40..48].try_into().unwrap()) as usize;
    // sh_size of .comment (section 7).
    set_u64(&mut bytes, shoff + 7 * 64 + 32, 1 << 20);
    assert_eq!(ElfFile::parse(&bytes).err(), Some(ElfError::InvalidOffset));
}
