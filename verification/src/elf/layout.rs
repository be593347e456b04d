//! Where each field of the ELF records lies: every value that the parse
//! reports is the little-endian number stored at the field's offset in the
//! record, as the `Elf32_*` and `Elf64_*` layouts of the ELF specification
//! place it.
use vstd::prelude::*;

use super::enums::{
    RelocationType, SectionFlags, SegmentFlags, dynamic_tag_of, symbol_binding_of, symbol_type_of, elf_class_of, endianness_of, file_type_of, machine_of,
    section_type_of, segment_type_of,
};
use super::header::{HeaderModel, spec_parse_header};
use super::program::{ProgramHeaderModel, segment_at};
use super::raw::bytes::{le16, le32, le64, signed32, signed64};
use super::raw::{HeaderFields, RawElfHeader, RawSymbol, SymbolFields};
use super::raw::{
    Elf32_Dyn, Elf32_Ehdr, Elf32_Phdr, Elf32_Rel, Elf32_Rela, Elf32_Shdr, Elf32_Sym, Elf64_Dyn,
    Elf64_Ehdr, Elf64_Phdr, Elf64_Rel, Elf64_Rela, Elf64_Shdr, Elf64_Sym,
};
use super::section::{ElfSectionHeader, SectionModel, section_at};
use super::symbols::{SymbolModel, lemma_table_entry_bounds, spec_parse_symbols};
use super::utility::{ok_of, spec_get_string};
use super::relocation::{RelocationModel, spec_parse_relocations};
use super::dynamic::{DynamicEntryModel, dynamic_table, spec_parse_dynamic};
use super::properties::{
    dynamic_is_last, lemma_first_null_from, lemma_parse_impl_gathers, relocations_in_section_order,
    relocations_read,
};
use super::relocation::RelocationSectionModel;
use super::dynamic::DynamicSectionModel;
use super::enums::SectionType;
use super::collect::{collect, lemma_collect_ok};
use super::error::ElfError;
use super::file::{named_section, spec_name_table_index, spec_parse_file, spec_parse_impl};
use super::program::SegmentModel;
use super::raw::{Elf32Types, Elf64Types, ElfTypes};

verus! {

/// The unsigned number stored little-endian in the two bytes at `o`.
pub open spec fn u16_at(b: Seq<u8>, o: int) -> int {
    b[o] + 0x100 * b[o + 1]
}

/// The unsigned number stored little-endian in the four bytes at `o`.
pub open spec fn u32_at(b: Seq<u8>, o: int) -> int {
    b[o] + 0x100 * b[o + 1] + 0x1_0000 * b[o + 2] + 0x100_0000 * b[o + 3]
}

/// The unsigned number stored little-endian in the eight bytes at `o`.
pub open spec fn u64_at(b: Seq<u8>, o: int) -> int {
    u32_at(b, o) + 0x1_0000_0000 * u32_at(b, o + 4)
}

/// The two's-complement number stored little-endian in the four bytes at `o`.
pub open spec fn i32_at(b: Seq<u8>, o: int) -> int {
    if u32_at(b, o) >= 0x8000_0000 {
        u32_at(b, o) - 0x1_0000_0000
    } else {
        u32_at(b, o)
    }
}

/// The two's-complement number stored little-endian in the eight bytes at
/// `o`.
pub open spec fn i64_at(b: Seq<u8>, o: int) -> int {
    if u64_at(b, o) >= 0x8000_0000_0000_0000 {
        u64_at(b, o) - 0x1_0000_0000_0000_0000
    } else {
        u64_at(b, o)
    }
}

/// The fixed-width readers give the little-endian numbers.
pub proof fn lemma_le_values(b: Seq<u8>, o: int)
    ensures
        le16(b, o) == u16_at(b, o),
        le32(b, o) == u32_at(b, o),
        le64(b, o) == u64_at(b, o),
        signed32(le32(b, o)) == i32_at(b, o),
        signed64(le64(b, o)) == i64_at(b, o),
{
    lemma_le16(b, o);
    lemma_le16(b, o + 2);
    lemma_le32(b, o);
    lemma_le16(b, o + 4);
    lemma_le16(b, o + 6);
    lemma_le32(b, o + 4);
    let lo = u32_at(b, o);
    let hi = u32_at(b, o + 4);
    assert(0 <= lo < 0x1_0000_0000 && 0 <= hi < 0x1_0000_0000);
    assert(0 <= lo + 0x1_0000_0000 * hi < 0x1_0000_0000_0000_0000) by (nonlinear_arith)
        requires
            0 <= lo < 0x1_0000_0000,
            0 <= hi < 0x1_0000_0000,
    ;
}

proof fn lemma_le16(b: Seq<u8>, o: int)
    ensures
        le16(b, o) == u16_at(b, o),
        0 <= u16_at(b, o) < 0x1_0000,
{
    let x = b[o];
    let y = b[o + 1];
    assert(0 <= x + 0x100 * y < 0x1_0000);
}

proof fn lemma_le32(b: Seq<u8>, o: int)
    requires
        le16(b, o) == u16_at(b, o),
        le16(b, o + 2) == u16_at(b, o + 2),
        0 <= u16_at(b, o) < 0x1_0000,
        0 <= u16_at(b, o + 2) < 0x1_0000,
    ensures
        le32(b, o) == u32_at(b, o),
        0 <= u32_at(b, o) < 0x1_0000_0000,
{
    let lo = u16_at(b, o);
    let hi = u16_at(b, o + 2);
    assert(0 <= lo + 0x1_0000 * hi < 0x1_0000_0000);
    assert(u32_at(b, o) == lo + 0x1_0000 * hi);
}

/// The file header of a 32-bit image (`Elf32_Ehdr`): `e_ident` in bytes
/// 0..16, then `e_type` at 16, `e_machine` at 18, `e_version` at 20,
/// `e_entry` at 24, `e_phoff` at 28, `e_shoff` at 32, `e_flags` at 36,
/// `e_ehsize` at 40, `e_phentsize` at 42, `e_phnum` at 44, `e_shentsize` at
/// 46, `e_shnum` at 48 and `e_shstrndx` at 50.
pub open spec fn header_at_32(h: HeaderModel, b: Seq<u8>) -> bool {
    &&& h.magic == b.subrange(0, 4)
    &&& h.class == elf_class_of(b[4])
    &&& h.endianness == endianness_of(b[5])
    &&& h.file_type == file_type_of(u16_at(b, 16) as u16)
    &&& h.machine == machine_of(u16_at(b, 18) as u16)
    &&& h.version == u32_at(b, 20)
    &&& h.entry == u32_at(b, 24)
    &&& h.program_header_offset == u32_at(b, 28)
    &&& h.section_header_offset == u32_at(b, 32)
    &&& h.header_size == u16_at(b, 40)
    &&& h.program_header_size == u16_at(b, 42)
    &&& h.program_header_count == u16_at(b, 44)
    &&& h.section_header_size == u16_at(b, 46)
    &&& h.section_header_count == u16_at(b, 48)
    &&& h.section_name_table_index == u16_at(b, 50)
}

/// The file header of a 64-bit image (`Elf64_Ehdr`): `e_ident` in bytes
/// 0..16, then `e_type` at 16, `e_machine` at 18, `e_version` at 20,
/// `e_entry` at 24, `e_phoff` at 32, `e_shoff` at 40, `e_flags` at 48,
/// `e_ehsize` at 52, `e_phentsize` at 54, `e_phnum` at 56, `e_shentsize` at
/// 58, `e_shnum` at 60 and `e_shstrndx` at 62.
pub open spec fn header_at_64(h: HeaderModel, b: Seq<u8>) -> bool {
    &&& h.magic == b.subrange(0, 4)
    &&& h.class == elf_class_of(b[4])
    &&& h.endianness == endianness_of(b[5])
    &&& h.file_type == file_type_of(u16_at(b, 16) as u16)
    &&& h.machine == machine_of(u16_at(b, 18) as u16)
    &&& h.version == u32_at(b, 20)
    &&& h.entry == u64_at(b, 24)
    &&& h.program_header_offset == u64_at(b, 32)
    &&& h.section_header_offset == u64_at(b, 40)
    &&& h.header_size == u16_at(b, 52)
    &&& h.program_header_size == u16_at(b, 54)
    &&& h.program_header_count == u16_at(b, 56)
    &&& h.section_header_size == u16_at(b, 58)
    &&& h.section_header_count == u16_at(b, 60)
    &&& h.section_name_table_index == u16_at(b, 62)
}

/// A 32-bit file header is read from the `Elf32_Ehdr` positions.
pub proof fn lemma_header_layout_32(b: Seq<u8>)
    requires
        spec_parse_header::<Elf32_Ehdr>(b) is Ok,
    ensures
        header_at_32(spec_parse_header::<Elf32_Ehdr>(b)->Ok_0, b),
{
    lemma_le_values(b, 16);
    lemma_le_values(b, 18);
    lemma_le_values(b, 20);
    lemma_le_values(b, 24);
    lemma_le_values(b, 28);
    lemma_le_values(b, 32);
    lemma_le_values(b, 40);
    lemma_le_values(b, 42);
    lemma_le_values(b, 44);
    lemma_le_values(b, 46);
    lemma_le_values(b, 48);
    lemma_le_values(b, 50);
    let h = spec_parse_header::<Elf32_Ehdr>(b)->Ok_0;
    assert(h.magic =~= b.subrange(0, 4));
}

/// A 64-bit file header is read from the `Elf64_Ehdr` positions.
pub proof fn lemma_header_layout_64(b: Seq<u8>)
    requires
        spec_parse_header::<Elf64_Ehdr>(b) is Ok,
    ensures
        header_at_64(spec_parse_header::<Elf64_Ehdr>(b)->Ok_0, b),
{
    lemma_le_values(b, 16);
    lemma_le_values(b, 18);
    lemma_le_values(b, 20);
    lemma_le_values(b, 24);
    lemma_le_values(b, 32);
    lemma_le_values(b, 40);
    lemma_le_values(b, 52);
    lemma_le_values(b, 54);
    lemma_le_values(b, 56);
    lemma_le_values(b, 58);
    lemma_le_values(b, 60);
    lemma_le_values(b, 62);
    let h = spec_parse_header::<Elf64_Ehdr>(b)->Ok_0;
    assert(h.magic =~= b.subrange(0, 4));
}

/// A field at `j` of the record `b[s..t]` holds the number stored at
/// `s + j` of `b`.
proof fn lemma_field(b: Seq<u8>, s: int, t: int, j: int)
    requires
        0 <= s,
        0 <= j,
        s + j + 2 <= t <= b.len(),
    ensures
        ({
            let e = b.subrange(s, t);
            &&& le16(e, j) == u16_at(b, s + j)
            &&& s + j + 4 <= t ==> le32(e, j) == u32_at(b, s + j) && signed32(le32(e, j))
                == i32_at(b, s + j)
            &&& s + j + 8 <= t ==> le64(e, j) == u64_at(b, s + j) && signed64(le64(e, j))
                == i64_at(b, s + j)
        }),
{
    let e = b.subrange(s, t);
    lemma_le_values(e, j);
    assert(e[j] == b[s + j] && e[j + 1] == b[s + j + 1]);
    if s + j + 4 <= t {
        assert(e[j + 2] == b[s + j + 2] && e[j + 3] == b[s + j + 3]);
        assert(u32_at(e, j) == u32_at(b, s + j));
    }
    if s + j + 8 <= t {
        assert(e[j + 4] == b[s + j + 4] && e[j + 5] == b[s + j + 5]);
        assert(e[j + 6] == b[s + j + 6] && e[j + 7] == b[s + j + 7]);
        assert(u32_at(e, j + 4) == u32_at(b, s + j + 4));
        assert(u64_at(e, j) == u64_at(b, s + j));
    }
}

/// The program header entry at byte `s` of a 32-bit image (`Elf32_Phdr`):
/// `p_type` at `s`, `p_offset` at `s + 4`, `p_vaddr` at `s + 8`, `p_paddr`
/// at `s + 12`, `p_filesz` at `s + 16`, `p_memsz` at `s + 20`, `p_flags` at
/// `s + 24` and `p_align` at `s + 28`.
pub open spec fn program_header_at_32(p: ProgramHeaderModel, b: Seq<u8>, s: int) -> bool {
    &&& p.segment_type == segment_type_of(u32_at(b, s) as u32)
    &&& p.file_offset == u32_at(b, s + 4)
    &&& p.virtual_address == u32_at(b, s + 8)
    &&& p.physical_address == u32_at(b, s + 12)
    &&& p.file_size == u32_at(b, s + 16)
    &&& p.memory_size == u32_at(b, s + 20)
    &&& p.flags == SegmentFlags(u32_at(b, s + 24) as u32)
    &&& p.alignment == u32_at(b, s + 28)
}

/// The program header entry at byte `s` of a 64-bit image (`Elf64_Phdr`):
/// `p_type` at `s`, `p_flags` at `s + 4`, `p_offset` at `s + 8`, `p_vaddr`
/// at `s + 16`, `p_paddr` at `s + 24`, `p_filesz` at `s + 32`, `p_memsz` at
/// `s + 40` and `p_align` at `s + 48`.
pub open spec fn program_header_at_64(p: ProgramHeaderModel, b: Seq<u8>, s: int) -> bool {
    &&& p.segment_type == segment_type_of(u32_at(b, s) as u32)
    &&& p.flags == SegmentFlags(u32_at(b, s + 4) as u32)
    &&& p.file_offset == u64_at(b, s + 8)
    &&& p.virtual_address == u64_at(b, s + 16)
    &&& p.physical_address == u64_at(b, s + 24)
    &&& p.file_size == u64_at(b, s + 32)
    &&& p.memory_size == u64_at(b, s + 40)
    &&& p.alignment == u64_at(b, s + 48)
}

/// Segment `i` of a 32-bit image is described by the `Elf32_Phdr` entry at
/// `e_phoff + i * e_phentsize`.
pub proof fn lemma_segment_layout_32(b: Seq<u8>, h: HeaderModel, i: int)
    requires
        0 <= i,
        segment_at::<Elf32_Phdr>(b, h, i) is Ok,
    ensures
        program_header_at_32(
            segment_at::<Elf32_Phdr>(b, h, i)->Ok_0.header,
            b,
            h.program_header_offset + i * h.program_header_size,
        ),
{
    let s = h.program_header_offset + i * h.program_header_size;
    lemma_field(b, s, b.len() as int, 0);
    lemma_field(b, s, b.len() as int, 4);
    lemma_field(b, s, b.len() as int, 8);
    lemma_field(b, s, b.len() as int, 12);
    lemma_field(b, s, b.len() as int, 16);
    lemma_field(b, s, b.len() as int, 20);
    lemma_field(b, s, b.len() as int, 24);
    lemma_field(b, s, b.len() as int, 28);
}

/// Segment `i` of a 64-bit image is described by the `Elf64_Phdr` entry at
/// `e_phoff + i * e_phentsize`.
pub proof fn lemma_segment_layout_64(b: Seq<u8>, h: HeaderModel, i: int)
    requires
        0 <= i,
        segment_at::<Elf64_Phdr>(b, h, i) is Ok,
    ensures
        program_header_at_64(
            segment_at::<Elf64_Phdr>(b, h, i)->Ok_0.header,
            b,
            h.program_header_offset + i * h.program_header_size,
        ),
{
    let s = h.program_header_offset + i * h.program_header_size;
    lemma_field(b, s, b.len() as int, 0);
    lemma_field(b, s, b.len() as int, 4);
    lemma_field(b, s, b.len() as int, 8);
    lemma_field(b, s, b.len() as int, 16);
    lemma_field(b, s, b.len() as int, 24);
    lemma_field(b, s, b.len() as int, 32);
    lemma_field(b, s, b.len() as int, 40);
    lemma_field(b, s, b.len() as int, 48);
}

/// The section header entry at byte `s` of a 32-bit image (`Elf32_Shdr`):
/// `sh_name` at `s`, `sh_type` at `s + 4`, `sh_flags` at `s + 8` (of which
/// the known flags are kept), `sh_addr` at `s + 12`, `sh_offset` at
/// `s + 16`, `sh_size` at `s + 20`, `sh_link` at `s + 24`, `sh_info` at
/// `s + 28`, `sh_addralign` at `s + 32` and `sh_entsize` at `s + 36`.
pub open spec fn section_header_at_32(h: ElfSectionHeader, b: Seq<u8>, s: int) -> bool {
    &&& h.name_offset == u32_at(b, s)
    &&& h.section_type == section_type_of(u32_at(b, s + 4) as u32)
    &&& h.flags == SectionFlags((u32_at(b, s + 8) as u64) & 0x7f7)
    &&& h.virtual_address == u32_at(b, s + 12)
    &&& h.file_offset == u32_at(b, s + 16)
    &&& h.size == u32_at(b, s + 20)
    &&& h.link == u32_at(b, s + 24)
    &&& h.info == u32_at(b, s + 28)
    &&& h.alignment == u32_at(b, s + 32)
    &&& h.entry_size == u32_at(b, s + 36)
}

/// The section header entry at byte `s` of a 64-bit image (`Elf64_Shdr`):
/// `sh_name` at `s`, `sh_type` at `s + 4`, `sh_flags` at `s + 8` (of which
/// the known flags are kept), `sh_addr` at `s + 16`, `sh_offset` at
/// `s + 24`, `sh_size` at `s + 32`, `sh_link` at `s + 40`, `sh_info` at
/// `s + 44`, `sh_addralign` at `s + 48` and `sh_entsize` at `s + 56`.
pub open spec fn section_header_at_64(h: ElfSectionHeader, b: Seq<u8>, s: int) -> bool {
    &&& h.name_offset == u32_at(b, s)
    &&& h.section_type == section_type_of(u32_at(b, s + 4) as u32)
    &&& h.flags == SectionFlags((u64_at(b, s + 8) as u64) & 0x7f7)
    &&& h.virtual_address == u64_at(b, s + 16)
    &&& h.file_offset == u64_at(b, s + 24)
    &&& h.size == u64_at(b, s + 32)
    &&& h.link == u32_at(b, s + 40)
    &&& h.info == u32_at(b, s + 44)
    &&& h.alignment == u64_at(b, s + 48)
    &&& h.entry_size == u64_at(b, s + 56)
}

/// Section `i` of a 32-bit image is described by the `Elf32_Shdr` entry at
/// `e_shoff + i * e_shentsize`.
pub proof fn lemma_section_layout_32(b: Seq<u8>, h: HeaderModel, i: int)
    requires
        0 <= i,
        section_at::<Elf32_Shdr>(b, h, i) is Ok,
    ensures
        section_header_at_32(
            section_at::<Elf32_Shdr>(b, h, i)->Ok_0.header,
            b,
            h.section_header_offset + i * h.section_header_size,
        ),
{
    let s = h.section_header_offset + i * h.section_header_size;
    lemma_field(b, s, b.len() as int, 0);
    lemma_field(b, s, b.len() as int, 4);
    lemma_field(b, s, b.len() as int, 8);
    lemma_field(b, s, b.len() as int, 12);
    lemma_field(b, s, b.len() as int, 16);
    lemma_field(b, s, b.len() as int, 20);
    lemma_field(b, s, b.len() as int, 24);
    lemma_field(b, s, b.len() as int, 28);
    lemma_field(b, s, b.len() as int, 32);
    lemma_field(b, s, b.len() as int, 36);
}

/// Section `i` of a 64-bit image is described by the `Elf64_Shdr` entry at
/// `e_shoff + i * e_shentsize`.
pub proof fn lemma_section_layout_64(b: Seq<u8>, h: HeaderModel, i: int)
    requires
        0 <= i,
        section_at::<Elf64_Shdr>(b, h, i) is Ok,
    ensures
        section_header_at_64(
            section_at::<Elf64_Shdr>(b, h, i)->Ok_0.header,
            b,
            h.section_header_offset + i * h.section_header_size,
        ),
{
    let s = h.section_header_offset + i * h.section_header_size;
    lemma_field(b, s, b.len() as int, 0);
    lemma_field(b, s, b.len() as int, 4);
    lemma_field(b, s, b.len() as int, 8);
    lemma_field(b, s, b.len() as int, 12);
    lemma_field(b, s, b.len() as int, 16);
    lemma_field(b, s, b.len() as int, 20);
    lemma_field(b, s, b.len() as int, 24);
    lemma_field(b, s, b.len() as int, 28);
    lemma_field(b, s, b.len() as int, 32);
    lemma_field(b, s, b.len() as int, 36);
    lemma_field(b, s, b.len() as int, 40);
    lemma_field(b, s, b.len() as int, 44);
    lemma_field(b, s, b.len() as int, 48);
    lemma_field(b, s, b.len() as int, 52);
    lemma_field(b, s, b.len() as int, 56);
    lemma_field(b, s, b.len() as int, 60);
}

/// The symbol table entry at byte `e` of the table `d` of a 32-bit image
/// (`Elf32_Sym`), named through the string table `strtab`: `st_name` at `e`,
/// `st_value` at `e + 4`, `st_size` at `e + 8`, `st_info` at `e + 12` (its
/// high nibble the binding, its low nibble the type) and `st_shndx` at
/// `e + 14`.
pub open spec fn symbol_entry_at_32(m: SymbolModel, d: Seq<u8>, e: int, strtab: Seq<u8>) -> bool {
    &&& m.name == ok_of(spec_get_string(strtab, u32_at(d, e) as u32))
    &&& m.value == u32_at(d, e + 4)
    &&& m.size == u32_at(d, e + 8)
    &&& m.binding == symbol_binding_of(d[e + 12] / 16)
    &&& m.symbol_type == symbol_type_of(d[e + 12] % 16)
    &&& m.section_index == u16_at(d, e + 14)
}

/// The symbol table entry at byte `e` of the table `d` of a 64-bit image
/// (`Elf64_Sym`), named through the string table `strtab`: `st_name` at `e`,
/// `st_info` at `e + 4` (its high nibble the binding, its low nibble the
/// type), `st_shndx` at `e + 6`, `st_value` at `e + 8` and `st_size` at
/// `e + 16`.
pub open spec fn symbol_entry_at_64(m: SymbolModel, d: Seq<u8>, e: int, strtab: Seq<u8>) -> bool {
    &&& m.name == ok_of(spec_get_string(strtab, u32_at(d, e) as u32))
    &&& m.binding == symbol_binding_of(d[e + 4] / 16)
    &&& m.symbol_type == symbol_type_of(d[e + 4] % 16)
    &&& m.section_index == u16_at(d, e + 6)
    &&& m.value == u64_at(d, e + 8)
    &&& m.size == u64_at(d, e + 16)
}

/// Symbol `k` of the 32-bit symbol table at `index` is the `Elf32_Sym`
/// entry at `k * sh_entsize` of the table, named through the string table
/// that `sh_link` names.
pub proof fn lemma_symbols_layout_32(index: int, sections: Seq<SectionModel>)
    requires
        spec_parse_symbols::<Elf32_Sym>(index, sections) is Ok,
    ensures
        ({
            let syms = spec_parse_symbols::<Elf32_Sym>(index, sections)->Ok_0;
            let t = sections[index];
            forall|k: int|
                0 <= k < syms.len() ==> symbol_entry_at_32(
                    #[trigger] syms[k],
                    t.data,
                    k * t.header.entry_size,
                    sections[t.header.link as int].data,
                )
        }),
{
    let syms = spec_parse_symbols::<Elf32_Sym>(index, sections)->Ok_0;
    let t = sections[index];
    let w = t.header.entry_size as int;
    assert forall|k: int| 0 <= k < syms.len() implies symbol_entry_at_32(
        #[trigger] syms[k],
        t.data,
        k * t.header.entry_size,
        sections[t.header.link as int].data,
    ) by {
        lemma_table_entry_bounds(t.data.len() as int, w, k);
        let e = k * w;
        lemma_field(t.data, e, e + w, 0);
        lemma_field(t.data, e, e + w, 4);
        lemma_field(t.data, e, e + w, 8);
        lemma_field(t.data, e, e + w, 14);
        assert(t.data.subrange(e, e + w)[12] == t.data[e + 12]);
    }
}

/// Symbol `k` of the 64-bit symbol table at `index` is the `Elf64_Sym`
/// entry at `k * sh_entsize` of the table, named through the string table
/// that `sh_link` names.
pub proof fn lemma_symbols_layout_64(index: int, sections: Seq<SectionModel>)
    requires
        spec_parse_symbols::<Elf64_Sym>(index, sections) is Ok,
    ensures
        ({
            let syms = spec_parse_symbols::<Elf64_Sym>(index, sections)->Ok_0;
            let t = sections[index];
            forall|k: int|
                0 <= k < syms.len() ==> symbol_entry_at_64(
                    #[trigger] syms[k],
                    t.data,
                    k * t.header.entry_size,
                    sections[t.header.link as int].data,
                )
        }),
{
    let syms = spec_parse_symbols::<Elf64_Sym>(index, sections)->Ok_0;
    let t = sections[index];
    let w = t.header.entry_size as int;
    assert forall|k: int| 0 <= k < syms.len() implies symbol_entry_at_64(
        #[trigger] syms[k],
        t.data,
        k * t.header.entry_size,
        sections[t.header.link as int].data,
    ) by {
        lemma_table_entry_bounds(t.data.len() as int, w, k);
        let e = k * w;
        lemma_field(t.data, e, e + w, 0);
        lemma_field(t.data, e, e + w, 6);
        lemma_field(t.data, e, e + w, 8);
        lemma_field(t.data, e, e + w, 16);
        assert(t.data.subrange(e, e + w)[4] == t.data[e + 4]);
    }
}

/// The relocation entry at byte `e` of the table `d` of a 32-bit image:
/// `r_offset` at `e` and `r_info` at `e + 4`, read as a 64-bit word whose
/// high half, the symbol index, is zero and whose low half is the type;
/// with `rela`, the signed `r_addend` at `e + 8`.
pub open spec fn relocation_entry_at_32(m: RelocationModel, d: Seq<u8>, e: int, rela: bool) -> bool {
    &&& m.offset == u32_at(d, e)
    &&& m.symbol_index == 0
    &&& m.relocation_type == RelocationType(u32_at(d, e + 4) as u32)
    &&& m.addend == if rela {
        Some(i32_at(d, e + 8) as i64)
    } else {
        None
    }
}

/// The relocation entry at byte `e` of the table `d` of a 64-bit image:
/// `r_offset` at `e` and `r_info` at `e + 8`, whose low half (at `e + 8`)
/// is the type and whose high half (at `e + 12`) is the symbol index; with
/// `rela`, the signed `r_addend` at `e + 16`.
pub open spec fn relocation_entry_at_64(m: RelocationModel, d: Seq<u8>, e: int, rela: bool) -> bool {
    &&& m.offset == u64_at(d, e)
    &&& m.relocation_type == RelocationType(u32_at(d, e + 8) as u32)
    &&& m.symbol_index == u32_at(d, e + 12)
    &&& m.addend == if rela {
        Some(i64_at(d, e + 16) as i64)
    } else {
        None
    }
}

/// The `r_info` word of a 64-bit entry splits into the numbers stored in
/// its two halves.
proof fn lemma_info_halves(d: Seq<u8>, o: int)
    ensures
        u64_at(d, o) / 0x1_0000_0000 == u32_at(d, o + 4),
        u64_at(d, o) % 0x1_0000_0000 == u32_at(d, o),
{
    lemma_le_values(d, o);
    lemma_le_values(d, o + 4);
    let lo = u32_at(d, o);
    let hi = u32_at(d, o + 4);
    assert(0 <= lo < 0x1_0000_0000 && 0 <= hi);
    assert((lo + 0x1_0000_0000 * hi) / 0x1_0000_0000 == hi && (lo + 0x1_0000_0000 * hi)
        % 0x1_0000_0000 == lo) by (nonlinear_arith)
        requires
            0 <= lo < 0x1_0000_0000,
            0 <= hi,
    ;
}

/// Relocation `k` of the 32-bit `Rel` table at `index` is the `Elf32_Rel`
/// entry at `k * sh_entsize` of the table.
pub proof fn lemma_rel_layout_32(index: int, sections: Seq<SectionModel>)
    requires
        spec_parse_relocations::<Elf32_Rel>(index, sections) is Some,
    ensures
        ({
            let r = spec_parse_relocations::<Elf32_Rel>(index, sections)->Some_0;
            let t = sections[index];
            forall|k: int|
                0 <= k < r.relocations.len() ==> relocation_entry_at_32(
                    #[trigger] r.relocations[k],
                    t.data,
                    k * t.header.entry_size,
                    false,
                )
        }),
{
    let r = spec_parse_relocations::<Elf32_Rel>(index, sections)->Some_0;
    let t = sections[index];
    let w = t.header.entry_size as int;
    assert forall|k: int| 0 <= k < r.relocations.len() implies relocation_entry_at_32(
        #[trigger] r.relocations[k],
        t.data,
        k * t.header.entry_size,
        false,
    ) by {
        lemma_table_entry_bounds(t.data.len() as int, w, k);
        let e = k * w;
        lemma_field(t.data, e, e + w, 0);
        lemma_field(t.data, e, e + w, 4);
    }
}

/// Relocation `k` of the 32-bit `Rela` table at `index` is the `Elf32_Rela`
/// entry at `k * sh_entsize` of the table.
pub proof fn lemma_rela_layout_32(index: int, sections: Seq<SectionModel>)
    requires
        spec_parse_relocations::<Elf32_Rela>(index, sections) is Some,
    ensures
        ({
            let r = spec_parse_relocations::<Elf32_Rela>(index, sections)->Some_0;
            let t = sections[index];
            forall|k: int|
                0 <= k < r.relocations.len() ==> relocation_entry_at_32(
                    #[trigger] r.relocations[k],
                    t.data,
                    k * t.header.entry_size,
                    true,
                )
        }),
{
    let r = spec_parse_relocations::<Elf32_Rela>(index, sections)->Some_0;
    let t = sections[index];
    let w = t.header.entry_size as int;
    assert forall|k: int| 0 <= k < r.relocations.len() implies relocation_entry_at_32(
        #[trigger] r.relocations[k],
        t.data,
        k * t.header.entry_size,
        true,
    ) by {
        lemma_table_entry_bounds(t.data.len() as int, w, k);
        let e = k * w;
        lemma_field(t.data, e, e + w, 0);
        lemma_field(t.data, e, e + w, 4);
        lemma_field(t.data, e, e + w, 8);
    }
}

/// Relocation `k` of the 64-bit `Rel` table at `index` is the `Elf64_Rel`
/// entry at `k * sh_entsize` of the table.
pub proof fn lemma_rel_layout_64(index: int, sections: Seq<SectionModel>)
    requires
        spec_parse_relocations::<Elf64_Rel>(index, sections) is Some,
    ensures
        ({
            let r = spec_parse_relocations::<Elf64_Rel>(index, sections)->Some_0;
            let t = sections[index];
            forall|k: int|
                0 <= k < r.relocations.len() ==> relocation_entry_at_64(
                    #[trigger] r.relocations[k],
                    t.data,
                    k * t.header.entry_size,
                    false,
                )
        }),
{
    let r = spec_parse_relocations::<Elf64_Rel>(index, sections)->Some_0;
    let t = sections[index];
    let w = t.header.entry_size as int;
    assert forall|k: int| 0 <= k < r.relocations.len() implies relocation_entry_at_64(
        #[trigger] r.relocations[k],
        t.data,
        k * t.header.entry_size,
        false,
    ) by {
        lemma_table_entry_bounds(t.data.len() as int, w, k);
        let e = k * w;
        lemma_field(t.data, e, e + w, 0);
        lemma_field(t.data, e, e + w, 8);
        lemma_field(t.data, e, e + w, 12);
        lemma_info_halves(t.data, e + 8);
    }
}

/// Relocation `k` of the 64-bit `Rela` table at `index` is the `Elf64_Rela`
/// entry at `k * sh_entsize` of the table.
pub proof fn lemma_rela_layout_64(index: int, sections: Seq<SectionModel>)
    requires
        spec_parse_relocations::<Elf64_Rela>(index, sections) is Some,
    ensures
        ({
            let r = spec_parse_relocations::<Elf64_Rela>(index, sections)->Some_0;
            let t = sections[index];
            forall|k: int|
                0 <= k < r.relocations.len() ==> relocation_entry_at_64(
                    #[trigger] r.relocations[k],
                    t.data,
                    k * t.header.entry_size,
                    true,
                )
        }),
{
    let r = spec_parse_relocations::<Elf64_Rela>(index, sections)->Some_0;
    let t = sections[index];
    let w = t.header.entry_size as int;
    assert forall|k: int| 0 <= k < r.relocations.len() implies relocation_entry_at_64(
        #[trigger] r.relocations[k],
        t.data,
        k * t.header.entry_size,
        true,
    ) by {
        lemma_table_entry_bounds(t.data.len() as int, w, k);
        let e = k * w;
        lemma_field(t.data, e, e + w, 0);
        lemma_field(t.data, e, e + w, 8);
        lemma_field(t.data, e, e + w, 12);
        lemma_field(t.data, e, e + w, 16);
        lemma_info_halves(t.data, e + 8);
    }
}

/// The dynamic entry at byte `e` of the table `d` of a 32-bit image
/// (`Elf32_Dyn`): the signed `d_tag` at `e` and `d_un` at `e + 4`.
pub open spec fn dynamic_entry_at_32(m: DynamicEntryModel, d: Seq<u8>, e: int) -> bool {
    &&& m.tag == dynamic_tag_of(i32_at(d, e) as i64)
    &&& m.value == u32_at(d, e + 4)
}

/// The dynamic entry at byte `e` of the table `d` of a 64-bit image
/// (`Elf64_Dyn`): the signed `d_tag` at `e` and `d_un` at `e + 8`.
pub open spec fn dynamic_entry_at_64(m: DynamicEntryModel, d: Seq<u8>, e: int) -> bool {
    &&& m.tag == dynamic_tag_of(i64_at(d, e) as i64)
    &&& m.value == u64_at(d, e + 8)
}

/// Entry `k` of a 32-bit dynamic section is the `Elf32_Dyn` entry at
/// `k * sh_entsize` of the section.
pub proof fn lemma_dynamic_layout_32(index: usize, section: SectionModel)
    requires
        spec_parse_dynamic::<Elf32_Dyn>(index, section) matches Ok(Some(_)),
    ensures
        ({
            let d = spec_parse_dynamic::<Elf32_Dyn>(index, section)->Ok_0->Some_0;
            forall|k: int|
                0 <= k < d.entries.len() ==> dynamic_entry_at_32(
                    #[trigger] d.entries[k],
                    section.data,
                    k * section.header.entry_size,
                )
        }),
{
    let d = spec_parse_dynamic::<Elf32_Dyn>(index, section)->Ok_0->Some_0;
    let w = section.header.entry_size as int;
    let all = dynamic_table::<Elf32_Dyn>(section.data, w);
    lemma_first_null_from(all, 0);
    assert forall|k: int| 0 <= k < d.entries.len() implies dynamic_entry_at_32(
        #[trigger] d.entries[k],
        section.data,
        k * section.header.entry_size,
    ) by {
        assert(d.entries[k] == all[k]);
        lemma_table_entry_bounds(section.data.len() as int, w, k);
        let e = k * w;
        lemma_field(section.data, e, e + w, 0);
        lemma_field(section.data, e, e + w, 4);
    }
}

/// Entry `k` of a 64-bit dynamic section is the `Elf64_Dyn` entry at
/// `k * sh_entsize` of the section.
pub proof fn lemma_dynamic_layout_64(index: usize, section: SectionModel)
    requires
        spec_parse_dynamic::<Elf64_Dyn>(index, section) matches Ok(Some(_)),
    ensures
        ({
            let d = spec_parse_dynamic::<Elf64_Dyn>(index, section)->Ok_0->Some_0;
            forall|k: int|
                0 <= k < d.entries.len() ==> dynamic_entry_at_64(
                    #[trigger] d.entries[k],
                    section.data,
                    k * section.header.entry_size,
                )
        }),
{
    let d = spec_parse_dynamic::<Elf64_Dyn>(index, section)->Ok_0->Some_0;
    let w = section.header.entry_size as int;
    let all = dynamic_table::<Elf64_Dyn>(section.data, w);
    lemma_first_null_from(all, 0);
    assert forall|k: int| 0 <= k < d.entries.len() implies dynamic_entry_at_64(
        #[trigger] d.entries[k],
        section.data,
        k * section.header.entry_size,
    ) by {
        assert(d.entries[k] == all[k]);
        lemma_table_entry_bounds(section.data.len() as int, w, k);
        let e = k * w;
        lemma_field(section.data, e, e + w, 0);
        lemma_field(section.data, e, e + w, 8);
    }
}

/// The header, segments and sections of an image read with the layouts
/// `E` are those read from the header, program header and section header
/// entries of the image.
proof fn lemma_parse_impl_records<E: ElfTypes>(b: Seq<u8>)
    requires
        spec_parse_impl::<E>(b) is Ok,
    ensures
        ({
            let f = spec_parse_impl::<E>(b)->Ok_0;
            &&& spec_parse_header::<E::Header>(b) == Ok::<HeaderModel, ElfError>(f.header)
            &&& forall|i: int|
                0 <= i < f.segments.len() ==> segment_at::<E::ProgramHeader>(b, f.header, i) == Ok::<
                    SegmentModel,
                    ElfError,
                >(#[trigger] f.segments[i])
            &&& forall|i: int|
                0 <= i < f.sections.len() ==> (section_at::<E::SectionHeader>(b, f.header, i) is Ok
                    && section_at::<E::SectionHeader>(b, f.header, i)->Ok_0.header == (
                #[trigger] f.sections[i]).header)
        }),
{
    let f = spec_parse_impl::<E>(b)->Ok_0;
    let h = f.header;
    let fs = |i: int| segment_at::<E::ProgramHeader>(b, h, i);
    lemma_collect_ok(fs, h.program_header_count as nat);
    assert(f.segments == collect(h.program_header_count as nat, fs)->Ok_0);
    assert forall|i: int| 0 <= i < f.segments.len() implies segment_at::<E::ProgramHeader>(
        b,
        h,
        i,
    ) == Ok::<SegmentModel, ElfError>(#[trigger] f.segments[i]) by {
        assert(fs(i) == Ok::<SegmentModel, ElfError>(f.segments[i]));
    }
    let fu = |i: int| section_at::<E::SectionHeader>(b, h, i);
    lemma_collect_ok(fu, h.section_header_count as nat);
    let unnamed = collect(h.section_header_count as nat, fu)->Ok_0;
    let t = spec_name_table_index(h, unnamed)->Ok_0;
    let fnm = |k: int| named_section(unnamed[k], unnamed[t].data);
    lemma_collect_ok(fnm, unnamed.len());
    assert(f.sections == collect(unnamed.len(), fnm)->Ok_0);
    assert forall|i: int| 0 <= i < f.sections.len() implies (section_at::<E::SectionHeader>(
        b,
        h,
        i,
    ) is Ok && section_at::<E::SectionHeader>(b, h, i)->Ok_0.header == (
    #[trigger] f.sections[i]).header) by {
        assert(fnm(i) == Ok::<SectionModel, ElfError>(f.sections[i]));
        assert(fu(i) == Ok::<SectionModel, ElfError>(unnamed[i]));
    }
}

/// The file header, every program header and every section header of a
/// parsed image are read from their places in the image, with the field
/// positions of its class: program header `i` at `e_phoff + i *
/// e_phentsize`, section header `i` at `e_shoff + i * e_shentsize`.
pub proof fn lemma_parse_file_record_layout(b: Seq<u8>)
    requires
        spec_parse_file(b) is Ok,
    ensures
        ({
            let f = spec_parse_file(b)->Ok_0;
            let h = f.header;
            &&& b[4] == 1 ==> {
                &&& header_at_32(h, b)
                &&& forall|i: int|
                    0 <= i < f.segments.len() ==> program_header_at_32(
                        (#[trigger] f.segments[i]).header,
                        b,
                        h.program_header_offset + i * h.program_header_size,
                    )
                &&& forall|i: int|
                    0 <= i < f.sections.len() ==> section_header_at_32(
                        (#[trigger] f.sections[i]).header,
                        b,
                        h.section_header_offset + i * h.section_header_size,
                    )
            }
            &&& b[4] == 2 ==> {
                &&& header_at_64(h, b)
                &&& forall|i: int|
                    0 <= i < f.segments.len() ==> program_header_at_64(
                        (#[trigger] f.segments[i]).header,
                        b,
                        h.program_header_offset + i * h.program_header_size,
                    )
                &&& forall|i: int|
                    0 <= i < f.sections.len() ==> section_header_at_64(
                        (#[trigger] f.sections[i]).header,
                        b,
                        h.section_header_offset + i * h.section_header_size,
                    )
            }
        }),
{
    let f = spec_parse_file(b)->Ok_0;
    let h = f.header;
    if b[4] == 1 {
        lemma_parse_impl_records::<Elf32Types>(b);
        lemma_header_layout_32(b);
        assert forall|i: int| 0 <= i < f.segments.len() implies program_header_at_32(
            (#[trigger] f.segments[i]).header,
            b,
            h.program_header_offset + i * h.program_header_size,
        ) by {
            lemma_segment_layout_32(b, h, i);
        }
        assert forall|i: int| 0 <= i < f.sections.len() implies section_header_at_32(
            (#[trigger] f.sections[i]).header,
            b,
            h.section_header_offset + i * h.section_header_size,
        ) by {
            lemma_section_layout_32(b, h, i);
        }
    } else {
        lemma_parse_impl_records::<Elf64Types>(b);
        lemma_header_layout_64(b);
        assert forall|i: int| 0 <= i < f.segments.len() implies program_header_at_64(
            (#[trigger] f.segments[i]).header,
            b,
            h.program_header_offset + i * h.program_header_size,
        ) by {
            lemma_segment_layout_64(b, h, i);
        }
        assert forall|i: int| 0 <= i < f.sections.len() implies section_header_at_64(
            (#[trigger] f.sections[i]).header,
            b,
            h.section_header_offset + i * h.section_header_size,
        ) by {
            lemma_section_layout_64(b, h, i);
        }
    }
}

/// Each entry of each relocation table of `rels`, read with the 32-bit
/// layouts from the sections it names, is the entry at `j * sh_entsize` of
/// its section.
proof fn lemma_relocation_tables_32(rels: Seq<RelocationSectionModel>, sections: Seq<SectionModel>)
    requires
        relocations_in_section_order(rels, sections, sections.len() as int),
        relocations_read::<Elf32Types>(rels, sections),
    ensures
        forall|k: int, j: int|
            0 <= k < rels.len() && 0 <= j < rels[k].relocations.len() ==> {
                let t = sections[rels[k].section_index as int];
                relocation_entry_at_32(
                    #[trigger] rels[k].relocations[j],
                    t.data,
                    j * t.header.entry_size,
                    t.header.section_type == SectionType::Rela,
                )
            },
{
    assert forall|k: int, j: int| 0 <= k < rels.len() && 0 <= j < rels[k].relocations.len() implies {
        let t = sections[rels[k].section_index as int];
        relocation_entry_at_32(
            #[trigger] rels[k].relocations[j],
            t.data,
            j * t.header.entry_size,
            t.header.section_type == SectionType::Rela,
        )
    } by {
        let r = rels[k];
        let i = r.section_index as int;
        let ty = sections[i].header.section_type;
        assert(i < sections.len() && (ty == SectionType::Rel || ty == SectionType::Rela));
        if ty == SectionType::Rel {
            assert(spec_parse_relocations::<Elf32_Rel>(i, sections) == Some(r));
            lemma_rel_layout_32(i, sections);
            let rr = spec_parse_relocations::<Elf32_Rel>(i, sections)->Some_0;
            assert(relocation_entry_at_32(
                rr.relocations[j],
                sections[i].data,
                j * sections[i].header.entry_size,
                false,
            ));
        } else {
            assert(spec_parse_relocations::<Elf32_Rela>(i, sections) == Some(r));
            lemma_rela_layout_32(i, sections);
            let rr = spec_parse_relocations::<Elf32_Rela>(i, sections)->Some_0;
            assert(relocation_entry_at_32(
                rr.relocations[j],
                sections[i].data,
                j * sections[i].header.entry_size,
                true,
            ));
        }
    }
}

/// Each entry of each relocation table of `rels`, read with the 64-bit
/// layouts from the sections it names, is the entry at `j * sh_entsize` of
/// its section.
proof fn lemma_relocation_tables_64(rels: Seq<RelocationSectionModel>, sections: Seq<SectionModel>)
    requires
        relocations_in_section_order(rels, sections, sections.len() as int),
        relocations_read::<Elf64Types>(rels, sections),
    ensures
        forall|k: int, j: int|
            0 <= k < rels.len() && 0 <= j < rels[k].relocations.len() ==> {
                let t = sections[rels[k].section_index as int];
                relocation_entry_at_64(
                    #[trigger] rels[k].relocations[j],
                    t.data,
                    j * t.header.entry_size,
                    t.header.section_type == SectionType::Rela,
                )
            },
{
    assert forall|k: int, j: int| 0 <= k < rels.len() && 0 <= j < rels[k].relocations.len() implies {
        let t = sections[rels[k].section_index as int];
        relocation_entry_at_64(
            #[trigger] rels[k].relocations[j],
            t.data,
            j * t.header.entry_size,
            t.header.section_type == SectionType::Rela,
        )
    } by {
        let r = rels[k];
        let i = r.section_index as int;
        let ty = sections[i].header.section_type;
        assert(i < sections.len() && (ty == SectionType::Rel || ty == SectionType::Rela));
        if ty == SectionType::Rel {
            assert(spec_parse_relocations::<Elf64_Rel>(i, sections) == Some(r));
            lemma_rel_layout_64(i, sections);
            let rr = spec_parse_relocations::<Elf64_Rel>(i, sections)->Some_0;
            assert(relocation_entry_at_64(
                rr.relocations[j],
                sections[i].data,
                j * sections[i].header.entry_size,
                false,
            ));
        } else {
            assert(spec_parse_relocations::<Elf64_Rela>(i, sections) == Some(r));
            lemma_rela_layout_64(i, sections);
            let rr = spec_parse_relocations::<Elf64_Rela>(i, sections)->Some_0;
            assert(relocation_entry_at_64(
                rr.relocations[j],
                sections[i].data,
                j * sections[i].header.entry_size,
                true,
            ));
        }
    }
}

/// Every relocation of a parsed image is read from its place in the `Rel`
/// or `Rela` section that holds it, with the field positions of the
/// image's class: entry `j` of a table at `j * sh_entsize`; a table of a
/// `Rela` section has addends, one of a `Rel` section has none.
pub proof fn lemma_parse_file_relocation_layout(b: Seq<u8>)
    requires
        spec_parse_file(b) is Ok,
    ensures
        ({
            let f = spec_parse_file(b)->Ok_0;
            &&& b[4] == 1 ==> forall|k: int, j: int|
                0 <= k < f.relocations.len() && 0 <= j < f.relocations[k].relocations.len()
                    ==> {
                    let t = f.sections[f.relocations[k].section_index as int];
                    relocation_entry_at_32(
                        #[trigger] f.relocations[k].relocations[j],
                        t.data,
                        j * t.header.entry_size,
                        t.header.section_type == SectionType::Rela,
                    )
                }
            &&& b[4] == 2 ==> forall|k: int, j: int|
                0 <= k < f.relocations.len() && 0 <= j < f.relocations[k].relocations.len()
                    ==> {
                    let t = f.sections[f.relocations[k].section_index as int];
                    relocation_entry_at_64(
                        #[trigger] f.relocations[k].relocations[j],
                        t.data,
                        j * t.header.entry_size,
                        t.header.section_type == SectionType::Rela,
                    )
                }
        }),
{
    let f = spec_parse_file(b)->Ok_0;
    if b[4] == 1 {
        lemma_parse_impl_gathers::<Elf32Types>(b);
        lemma_relocation_tables_32(f.relocations, f.sections);
    } else {
        lemma_parse_impl_gathers::<Elf64Types>(b);
        lemma_relocation_tables_64(f.relocations, f.sections);
    }
}

/// Each entry of the dynamic section `d` gathered from `sections` with the
/// 32-bit layout is the entry at `j * sh_entsize` of its section.
proof fn lemma_dynamic_entries_32(d: Option<DynamicSectionModel>, sections: Seq<SectionModel>)
    requires
        dynamic_is_last::<Elf32_Dyn>(d, sections, sections.len() as int),
    ensures
        d matches Some(dm) ==> forall|j: int|
            0 <= j < dm.entries.len() ==> {
                let t = sections[dm.section_index as int];
                dynamic_entry_at_32(#[trigger] dm.entries[j], t.data, j * t.header.entry_size)
            },
{
    if d is Some {
        let dm = d->Some_0;
        lemma_dynamic_layout_32(dm.section_index, sections[dm.section_index as int]);
    }
}

/// Each entry of the dynamic section `d` gathered from `sections` with the
/// 64-bit layout is the entry at `j * sh_entsize` of its section.
proof fn lemma_dynamic_entries_64(d: Option<DynamicSectionModel>, sections: Seq<SectionModel>)
    requires
        dynamic_is_last::<Elf64_Dyn>(d, sections, sections.len() as int),
    ensures
        d matches Some(dm) ==> forall|j: int|
            0 <= j < dm.entries.len() ==> {
                let t = sections[dm.section_index as int];
                dynamic_entry_at_64(#[trigger] dm.entries[j], t.data, j * t.header.entry_size)
            },
{
    if d is Some {
        let dm = d->Some_0;
        lemma_dynamic_layout_64(dm.section_index, sections[dm.section_index as int]);
    }
}

/// Every entry of the dynamic section of a parsed image is read from its
/// place in that section, with the field positions of the image's class:
/// entry `j` at `j * sh_entsize`.
pub proof fn lemma_parse_file_dynamic_layout(b: Seq<u8>)
    requires
        spec_parse_file(b) is Ok,
    ensures
        ({
            let f = spec_parse_file(b)->Ok_0;
            &&& b[4] == 1 ==> (f.dynamic matches Some(d) ==> forall|j: int|
                0 <= j < d.entries.len() ==> {
                    let t = f.sections[d.section_index as int];
                    dynamic_entry_at_32(#[trigger] d.entries[j], t.data, j * t.header.entry_size)
                })
            &&& b[4] == 2 ==> (f.dynamic matches Some(d) ==> forall|j: int|
                0 <= j < d.entries.len() ==> {
                    let t = f.sections[d.section_index as int];
                    dynamic_entry_at_64(#[trigger] d.entries[j], t.data, j * t.header.entry_size)
                })
        }),
{
    let f = spec_parse_file(b)->Ok_0;
    if b[4] == 1 {
        lemma_parse_impl_gathers::<Elf32Types>(b);
        lemma_dynamic_entries_32(f.dynamic, f.sections);
    } else {
        lemma_parse_impl_gathers::<Elf64Types>(b);
        lemma_dynamic_entries_64(f.dynamic, f.sections);
    }
}

/// The raw fields of a 32-bit file header (`Elf32_Ehdr`) are the numbers
/// at their positions, `e_flags` at 36 among them, and `e_ident` is the
/// first sixteen bytes.
pub proof fn lemma_raw_header_fields_32(b: Seq<u8>)
    requires
        b.len() >= 52,
    ensures
        ({
            let f: HeaderFields = Elf32_Ehdr::decode(b);
            &&& f.e_ident == b.subrange(0, 16)
            &&& f.e_type == u16_at(b, 16) && f.e_machine == u16_at(b, 18)
            &&& f.e_version == u32_at(b, 20) && f.e_entry == u32_at(b, 24)
            &&& f.e_phoff == u32_at(b, 28) && f.e_shoff == u32_at(b, 32)
            &&& f.e_flags == u32_at(b, 36) && f.e_ehsize == u16_at(b, 40)
            &&& f.e_phentsize == u16_at(b, 42) && f.e_phnum == u16_at(b, 44)
            &&& f.e_shentsize == u16_at(b, 46) && f.e_shnum == u16_at(b, 48)
            &&& f.e_shstrndx == u16_at(b, 50)
        }),
{
    lemma_le_values(b, 16);
    lemma_le_values(b, 18);
    lemma_le_values(b, 20);
    lemma_le_values(b, 24);
    lemma_le_values(b, 28);
    lemma_le_values(b, 32);
    lemma_le_values(b, 36);
    lemma_le_values(b, 40);
    lemma_le_values(b, 42);
    lemma_le_values(b, 44);
    lemma_le_values(b, 46);
    lemma_le_values(b, 48);
    lemma_le_values(b, 50);
}

/// The raw fields of a 64-bit file header (`Elf64_Ehdr`) are the numbers
/// at their positions, `e_flags` at 48 among them, and `e_ident` is the
/// first sixteen bytes.
pub proof fn lemma_raw_header_fields_64(b: Seq<u8>)
    requires
        b.len() >= 64,
    ensures
        ({
            let f: HeaderFields = Elf64_Ehdr::decode(b);
            &&& f.e_ident == b.subrange(0, 16)
            &&& f.e_type == u16_at(b, 16) && f.e_machine == u16_at(b, 18)
            &&& f.e_version == u32_at(b, 20) && f.e_entry == u64_at(b, 24)
            &&& f.e_phoff == u64_at(b, 32) && f.e_shoff == u64_at(b, 40)
            &&& f.e_flags == u32_at(b, 48) && f.e_ehsize == u16_at(b, 52)
            &&& f.e_phentsize == u16_at(b, 54) && f.e_phnum == u16_at(b, 56)
            &&& f.e_shentsize == u16_at(b, 58) && f.e_shnum == u16_at(b, 60)
            &&& f.e_shstrndx == u16_at(b, 62)
        }),
{
    lemma_le_values(b, 16);
    lemma_le_values(b, 18);
    lemma_le_values(b, 20);
    lemma_le_values(b, 24);
    lemma_le_values(b, 32);
    lemma_le_values(b, 40);
    lemma_le_values(b, 48);
    lemma_le_values(b, 52);
    lemma_le_values(b, 54);
    lemma_le_values(b, 56);
    lemma_le_values(b, 58);
    lemma_le_values(b, 60);
    lemma_le_values(b, 62);
}

/// The raw fields of a 32-bit symbol entry (`Elf32_Sym`): `st_name` at 0,
/// `st_value` at 4, `st_size` at 8, `st_info` at 12, `st_other` at 13 and
/// `st_shndx` at 14.
pub proof fn lemma_raw_symbol_fields_32(b: Seq<u8>)
    requires
        b.len() >= 16,
    ensures
        ({
            let f: SymbolFields = Elf32_Sym::decode(b);
            &&& f.st_name == u32_at(b, 0) && f.st_value == u32_at(b, 4)
            &&& f.st_size == u32_at(b, 8) && f.st_info == b[12] && f.st_other == b[13]
            &&& f.st_shndx == u16_at(b, 14)
        }),
{
    lemma_le_values(b, 0);
    lemma_le_values(b, 4);
    lemma_le_values(b, 8);
    lemma_le_values(b, 14);
}

/// The raw fields of a 64-bit symbol entry (`Elf64_Sym`): `st_name` at 0,
/// `st_info` at 4, `st_other` at 5, `st_shndx` at 6, `st_value` at 8 and
/// `st_size` at 16.
pub proof fn lemma_raw_symbol_fields_64(b: Seq<u8>)
    requires
        b.len() >= 24,
    ensures
        ({
            let f: SymbolFields = Elf64_Sym::decode(b);
            &&& f.st_name == u32_at(b, 0) && f.st_info == b[4] && f.st_other == b[5]
            &&& f.st_shndx == u16_at(b, 6) && f.st_value == u64_at(b, 8)
            &&& f.st_size == u64_at(b, 16)
        }),
{
    lemma_le_values(b, 0);
    lemma_le_values(b, 6);
    lemma_le_values(b, 8);
    lemma_le_values(b, 16);
}

} // verus!
