use libelfctf::elf::utility::get_string;
use libelfctf::elf::{
    DynamicTag, ElfClass, ElfError, Endianness, FileType, Machine, RelocationType, SectionFlags,
    SectionType, SegmentFlags, SegmentType, SymbolBinding, SymbolType,
};

#[test]
fn get_string_reads_to_nul() {
    let table = b"\0.text\0.data\0";
    assert_eq!(get_string(table, 0), Ok(""));
    assert_eq!(get_string(table, 1), Ok(".text"));
    assert_eq!(get_string(table, 7), Ok(".data"));
    assert_eq!(get_string(table, 3), Ok("ext"));
}

#[test]
fn get_string_errors() {
    let table = b"\0abc";
    assert_eq!(get_string(table, 4), Err(ElfError::InvalidStringOffset));
    assert_eq!(get_string(table, 100), Err(ElfError::InvalidStringOffset));
    assert_eq!(get_string(table, 1), Err(ElfError::InvalidString));
    assert_eq!(get_string(&[], 0), Err(ElfError::InvalidStringOffset));
    let bad_utf8 = [0x61, 0xff, 0x62, 0x00];
    assert_eq!(get_string(&bad_utf8, 0), Err(ElfError::InvalidString));
    assert_eq!(get_string(&bad_utf8, 2), Ok("b"));
}

#[test]
fn get_string_utf8() {
    let table = "\0héllo\0".as_bytes();
    assert_eq!(get_string(table, 1), Ok("héllo"));
}

#[test]
fn endianness_conversions() {
    assert_eq!(Endianness::from(1u8), Endianness::Little);
    assert_eq!(Endianness::from(2u8), Endianness::Big);
    assert_eq!(Endianness::from(7u8), Endianness::Unknown(7));
    for v in 0..=255u8 {
        assert_eq!(u8::from(Endianness::from(v)), v);
    }
}

#[test]
fn class_conversions() {
    assert_eq!(ElfClass::from(0u8), ElfClass::NoClass);
    assert_eq!(ElfClass::from(1u8), ElfClass::Elf32);
    assert_eq!(ElfClass::from(2u8), ElfClass::Elf64);
    assert_eq!(ElfClass::from(9u8), ElfClass::Unknown(9));
    for v in 0..=255u8 {
        assert_eq!(u8::from(ElfClass::from(v)), v);
    }
    // A non-canonical value does not come back: decoding gives the named one.
    assert_eq!(ElfClass::from(u8::from(ElfClass::Unknown(1))), ElfClass::Elf32);
}

#[test]
fn machine_conversions() {
    assert_eq!(Machine::from(0u16), Machine::NoMachine);
    assert_eq!(Machine::from(3u16), Machine::X86);
    assert_eq!(Machine::from(40u16), Machine::Arm);
    assert_eq!(Machine::from(62u16), Machine::X86_64);
    assert_eq!(Machine::from(183u16), Machine::AArch64);
    assert_eq!(Machine::from(243u16), Machine::Unknown(243));
    for v in [0u16, 3, 40, 62, 183, 1, 0xffff] {
        assert_eq!(u16::from(Machine::from(v)), v);
    }
}

#[test]
fn file_type_conversions() {
    assert_eq!(FileType::from(0u16), FileType::NoFileType);
    assert_eq!(FileType::from(1u16), FileType::Relocatable);
    assert_eq!(FileType::from(2u16), FileType::Executable);
    assert_eq!(FileType::from(3u16), FileType::Dynamic);
    assert_eq!(FileType::from(4u16), FileType::Core);
    assert_eq!(FileType::from(0xfe00u16), FileType::Unknown(0xfe00));
    for v in 0..=10u16 {
        assert_eq!(u16::from(FileType::from(v)), v);
    }
}

#[test]
fn segment_type_conversions() {
    assert_eq!(SegmentType::from(0u32), SegmentType::Null);
    assert_eq!(SegmentType::from(1u32), SegmentType::Load);
    assert_eq!(SegmentType::from(3u32), SegmentType::Interpreter);
    assert_eq!(SegmentType::from(6u32), SegmentType::ProgramHeader);
    assert_eq!(SegmentType::from(7u32), SegmentType::ThreadLocalStorage);
    assert_eq!(SegmentType::from(8u32), SegmentType::Unknown(8));
    assert_eq!(SegmentType::from(0x6474e550u32), SegmentType::OsSpecific(0x6474e550));
    assert_eq!(SegmentType::from(0x5fffffffu32), SegmentType::Unknown(0x5fffffff));
    assert_eq!(SegmentType::from(0x60000000u32), SegmentType::OsSpecific(0x60000000));
    assert_eq!(SegmentType::from(0x6fffffffu32), SegmentType::OsSpecific(0x6fffffff));
    assert_eq!(SegmentType::from(0x70000000u32), SegmentType::ProcessorSpecific(0x70000000));
    assert_eq!(SegmentType::from(0x7fffffffu32), SegmentType::ProcessorSpecific(0x7fffffff));
    assert_eq!(SegmentType::from(0x80000000u32), SegmentType::Unknown(0x80000000));
    for v in [0u32, 5, 7, 8, 0x6474e551, 0x70000001, 0xffffffff] {
        assert_eq!(u32::from(SegmentType::from(v)), v);
    }
}

#[test]
fn section_type_conversions() {
    let expected = [
        SectionType::Null,
        SectionType::ProgramBits,
        SectionType::SymbolTable,
        SectionType::StringTable,
        SectionType::Rela,
        SectionType::Hash,
        SectionType::Dynamic,
        SectionType::Note,
        SectionType::NoBits,
        SectionType::Rel,
        SectionType::ShLib,
        SectionType::DynSym,
    ];
    for (v, t) in expected.iter().enumerate() {
        assert_eq!(SectionType::from(v as u32), *t);
    }
    assert_eq!(SectionType::from(0x6ffffff6u32), SectionType::Unknown(0x6ffffff6));
}

#[test]
fn symbol_binding_conversions() {
    assert_eq!(SymbolBinding::from(0u8), SymbolBinding::Local);
    assert_eq!(SymbolBinding::from(1u8), SymbolBinding::Global);
    assert_eq!(SymbolBinding::from(2u8), SymbolBinding::Weak);
    assert_eq!(SymbolBinding::from(3u8), SymbolBinding::Unknown(3));
    assert_eq!(SymbolBinding::from(10u8), SymbolBinding::OsSpecific(10));
    assert_eq!(SymbolBinding::from(12u8), SymbolBinding::OsSpecific(12));
    assert_eq!(SymbolBinding::from(13u8), SymbolBinding::ProcessorSpecific(13));
    assert_eq!(SymbolBinding::from(15u8), SymbolBinding::ProcessorSpecific(15));
}

#[test]
fn symbol_type_conversions() {
    assert_eq!(SymbolType::from(0u8), SymbolType::NoType);
    assert_eq!(SymbolType::from(1u8), SymbolType::Object);
    assert_eq!(SymbolType::from(2u8), SymbolType::Function);
    assert_eq!(SymbolType::from(3u8), SymbolType::Section);
    assert_eq!(SymbolType::from(4u8), SymbolType::File);
    assert_eq!(SymbolType::from(5u8), SymbolType::Common);
    assert_eq!(SymbolType::from(6u8), SymbolType::Tls);
    assert_eq!(SymbolType::from(7u8), SymbolType::Unknown(7));
    assert_eq!(SymbolType::from(11u8), SymbolType::OsSpecific(11));
    assert_eq!(SymbolType::from(14u8), SymbolType::ProcessorSpecific(14));
}

#[test]
fn dynamic_tag_conversions() {
    assert_eq!(DynamicTag::from(0i64), DynamicTag::Null);
    assert_eq!(DynamicTag::from(1i64), DynamicTag::Needed);
    assert_eq!(DynamicTag::from(14i64), DynamicTag::SoName);
    assert_eq!(DynamicTag::from(30i64), DynamicTag::Flags);
    assert_eq!(DynamicTag::from(0x6ffffef5i64), DynamicTag::Unknown(0x6ffffef5));
    assert_eq!(DynamicTag::from(-1i64), DynamicTag::Unknown(-1));
    assert_eq!(RelocationType::from(7u32), RelocationType(7));
}

#[test]
fn segment_flags() {
    let f = SegmentFlags::from(SegmentFlags::READ | SegmentFlags::EXECUTE);
    assert!(f.readable());
    assert!(!f.writable());
    assert!(f.executable());
    assert_eq!(f.bits(), 5);
    assert_eq!(f.to_string(), "R-X");
    assert_eq!(SegmentFlags::from(0).to_string(), "---");
    assert_eq!(SegmentFlags::from(7).to_string(), "RWX");
    assert_eq!(SegmentFlags::from(2).to_string(), "-W-");
}

#[test]
fn section_flags_truncate() {
    let f = SectionFlags::from_bits_truncate(0xffff_ffff_ffff_ffff);
    assert_eq!(f.bits(), 0x7f7);
    let f = SectionFlags::from_bits_truncate(SectionFlags::ALLOC | SectionFlags::EXECINSTR | 0x8);
    assert_eq!(f.bits(), 0x6);
    assert!(f.contains(SectionFlags::ALLOC));
    assert!(!f.contains(SectionFlags::WRITE));
}

#[test]
fn segment_flags_debug_text() {
    assert_eq!(SegmentFlags::from(5).to_debug_string(), "SegmentFlags(0x5, R-X)");
    assert_eq!(SegmentFlags::from(0).to_debug_string(), "SegmentFlags(0x0, ---)");
    assert_eq!(SegmentFlags::from(7).to_debug_string(), "SegmentFlags(0x7, RWX)");
    assert_eq!(SegmentFlags::from(0x6).to_debug_string(), "SegmentFlags(0x6, RW-)");
    assert_eq!(
        SegmentFlags::from(0xf000_0001).to_debug_string(),
        "SegmentFlags(0xf0000001, --X)"
    );
    assert_eq!(SegmentFlags::from(0x1a).to_debug_string(), "SegmentFlags(0x1a, -W-)");
}

#[test]
fn section_flags_names_and_debug_text() {
    let f = SectionFlags::from_bits_truncate(3);
    assert_eq!(f.flag_names(), "WRITE | ALLOC");
    assert_eq!(f.to_debug_string(), "SectionFlags(WRITE | ALLOC)");
    let empty = SectionFlags::from_bits_truncate(0);
    assert_eq!(empty.flag_names(), "");
    assert_eq!(empty.to_debug_string(), "SectionFlags(0x0)");
    let all = SectionFlags::from_bits_truncate(u64::MAX);
    assert_eq!(
        all.to_debug_string(),
        "SectionFlags(WRITE | ALLOC | EXECINSTR | MERGE | STRINGS | INFO_LINK | LINK_ORDER \
         | OS_NONCONFORMING | GROUP | TLS)"
    );
    let one = SectionFlags::from_bits_truncate(SectionFlags::TLS);
    assert_eq!(one.to_debug_string(), "SectionFlags(TLS)");
    // Bits that no flag names are written last, in hexadecimal.
    assert_eq!(SectionFlags(0x9).to_debug_string(), "SectionFlags(WRITE | 0x8)");
    assert_eq!(SectionFlags(0x8).flag_names(), "0x8");
    assert_eq!(SectionFlags(0xf000_0000_0000_0000).to_debug_string(), "SectionFlags(0xf000000000000000)");
}

#[test]
fn error_messages() {
    assert_eq!(ElfError::InvalidMagic.message(), "invalid magic bytes");
    assert_eq!(ElfError::UnknownClass(5).message(), "unknown ELF class");
    assert_eq!(ElfError::UnexpectedEOF.message(), "unexpected end of file");
    assert_eq!(ElfError::InvalidSectionIndex.message(), "invalid section index");
    assert_eq!(ElfError::InvalidOffset.message(), "invalid offset");
    assert_eq!(ElfError::InvalidString.message(), "invalid string");
    assert_eq!(ElfError::InvalidStringOffset.message(), "invalid string offset");
    assert_eq!(ElfError::InvalidEntrySize.message(), "invalid entry size");
}
