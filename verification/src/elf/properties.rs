//! Properties of the library as a whole, proved from the specifications of
//! the parsing functions.
use vstd::prelude::*;

use super::collect::{collect, lemma_collect_ok};
use super::dynamic::{DynamicEntryModel, DynamicSectionModel, first_null_from, spec_parse_dynamic};
use super::enums::{DynamicTag, ElfClass, SectionType};
use super::error::ElfError;
use super::file::{
    FileModel, named_section, spec_analyze, spec_name_table_index, spec_parse_file,
    spec_parse_impl,
};
use super::header::spec_parse_header;
use super::program::{SegmentModel, segment_at};
use super::raw::{Elf32Types, Elf64Types, ElfTypes, RawDynamic};
use super::raw::relocation::{info_symbol, info_type};
use super::section::{SectionModel, section_at};
use super::symbols::{SymbolModel, spec_parse_symbols};
use super::utility::{first_nul_from, spec_get_string};
use vstd::utf8::decode_utf8;

verus! {

/// The segment `s` holds exactly the bytes `[p_offset, p_offset + p_filesz)`
/// of `b`, and that range lies inside `b`.
pub open spec fn segment_in_file(s: SegmentModel, b: Seq<u8>) -> bool {
    &&& s.header.file_offset + s.header.file_size <= b.len()
    &&& s.data == b.subrange(
        s.header.file_offset as int,
        s.header.file_offset + s.header.file_size,
    )
}

/// The section `s` holds exactly the bytes `[sh_offset, sh_offset + sh_size)`
/// of `b`, inside `b`; a `NoBits` section holds none.
pub open spec fn section_in_file(s: SectionModel, b: Seq<u8>) -> bool {
    if s.header.section_type == SectionType::NoBits {
        s.data.len() == 0
    } else {
        &&& s.header.file_offset + s.header.size <= b.len()
        &&& s.data == b.subrange(s.header.file_offset as int, s.header.file_offset + s.header.size)
    }
}

/// Every section of `f` carries the name found at its `sh_name` in the
/// section name table of `f`.
pub open spec fn sections_named_from_table(f: FileModel) -> bool {
    exists|t: int|
        {
            &&& spec_name_table_index(f.header, f.sections) == Ok::<int, ElfError>(t)
            &&& forall|i: int|
                0 <= i < f.sections.len() ==> spec_get_string(
                    f.sections[t].data,
                    #[trigger] f.sections[i].header.name_offset,
                ) == Ok::<Seq<char>, ElfError>(f.sections[i].name->Some_0) && f.sections[i].name
                    is Some
        }
}

/// What every image read with the layouts `E` satisfies: it keeps the bytes
/// it was read from, has one segment per program header and one section
/// per section header, and its segments and sections are ranges of those
/// bytes; every section is named from the section name table.
pub proof fn lemma_parse_impl_layout<E: ElfTypes>(b: Seq<u8>)
    requires
        spec_parse_impl::<E>(b) is Ok,
    ensures
        ({
            let f = spec_parse_impl::<E>(b)->Ok_0;
            &&& f.bytes == b
            &&& f.header == spec_parse_header::<E::Header>(b)->Ok_0
            &&& f.segments.len() == f.header.program_header_count
            &&& f.sections.len() == f.header.section_header_count
            &&& forall|i: int| 0 <= i < f.segments.len() ==> segment_in_file(#[trigger] f.segments[i], b)
            &&& forall|i: int| 0 <= i < f.sections.len() ==> section_in_file(#[trigger] f.sections[i], b)
            &&& sections_named_from_table(f)
        }),
{
    let f = spec_parse_impl::<E>(b)->Ok_0;
    let h = spec_parse_header::<E::Header>(b)->Ok_0;
    let fs = |i: int| segment_at::<E::ProgramHeader>(b, h, i);
    lemma_collect_ok(fs, h.program_header_count as nat);
    assert(f.segments == collect(h.program_header_count as nat, fs)->Ok_0);
    assert forall|i: int| 0 <= i < f.segments.len() implies segment_in_file(
        #[trigger] f.segments[i],
        b,
    ) by {
        assert(fs(i) == Ok::<SegmentModel, ElfError>(f.segments[i]));
    }

    let fu = |i: int| section_at::<E::SectionHeader>(b, h, i);
    lemma_collect_ok(fu, h.section_header_count as nat);
    let unnamed = collect(h.section_header_count as nat, fu)->Ok_0;
    let t = spec_name_table_index(h, unnamed)->Ok_0;
    let fnm = |k: int| named_section(unnamed[k], unnamed[t].data);
    lemma_collect_ok(fnm, unnamed.len());
    assert(f.sections == collect(unnamed.len(), fnm)->Ok_0);
    assert forall|i: int| 0 <= i < f.sections.len() implies {
        &&& f.sections[i].header == unnamed[i].header
        &&& f.sections[i].data == unnamed[i].data
        &&& f.sections[i].name is Some
        &&& spec_get_string(unnamed[t].data, f.sections[i].header.name_offset) == Ok::<
            Seq<char>,
            ElfError,
        >(f.sections[i].name->Some_0)
    } by {
        assert(fnm(i) == Ok::<SectionModel, ElfError>(f.sections[i]));
    }
    assert forall|i: int| 0 <= i < f.sections.len() implies section_in_file(
        #[trigger] f.sections[i],
        b,
    ) by {
        assert(fu(i) == Ok::<SectionModel, ElfError>(unnamed[i]));
        assert(f.sections[i].header == unnamed[i].header);
    }
    assert(f.sections.len() > 0 ==> f.sections[0].header == unnamed[0].header);
    assert(spec_name_table_index(h, f.sections) == Ok::<int, ElfError>(t));
    assert(f.sections[t].data == unnamed[t].data);
    assert forall|i: int| 0 <= i < f.sections.len() implies spec_get_string(
        f.sections[t].data,
        #[trigger] f.sections[i].header.name_offset,
    ) == Ok::<Seq<char>, ElfError>(f.sections[i].name->Some_0) && f.sections[i].name is Some by {
        assert(fnm(i) == Ok::<SectionModel, ElfError>(f.sections[i]));
    }
}

/// A successfully parsed ELF image starts with the magic `\x7fELF`, its
/// class is the one that `e_ident[EI_CLASS]` names (32 or 64 bits), and it
/// keeps the bytes it was read from; there is one segment per program
/// header and one section per section header; each segment and each section
/// other than `NoBits` is exactly the range of the input that its header
/// announces, inside the input; every section is named from the section
/// name table.
pub proof fn lemma_parse_file_layout(b: Seq<u8>)
    requires
        spec_parse_file(b) is Ok,
    ensures
        ({
            let f = spec_parse_file(b)->Ok_0;
            &&& f.bytes == b
            &&& f.header.magic == seq![0x7fu8, 0x45u8, 0x4cu8, 0x46u8]
            &&& (b[4] == 1 && f.header.class == ElfClass::Elf32) || (b[4] == 2 && f.header.class
                == ElfClass::Elf64)
            &&& f.segments.len() == f.header.program_header_count
            &&& f.sections.len() == f.header.section_header_count
            &&& forall|i: int| 0 <= i < f.segments.len() ==> segment_in_file(#[trigger] f.segments[i], b)
            &&& forall|i: int| 0 <= i < f.sections.len() ==> section_in_file(#[trigger] f.sections[i], b)
            &&& sections_named_from_table(f)
        }),
{
    if b[4] == 1 {
        lemma_parse_impl_layout::<Elf32Types>(b);
    } else {
        lemma_parse_impl_layout::<Elf64Types>(b);
    }
    let f = spec_parse_file(b)->Ok_0;
    assert(f.header.magic =~= seq![0x7fu8, 0x45u8, 0x4cu8, 0x46u8]);
}

/// The symbols of every symbol table (`SymbolTable` or `DynSym`) among the
/// first `n` sections, read with the layouts `E`, one table after the
/// other in section order.
pub open spec fn symbols_of_tables<E: ElfTypes>(sections: Seq<SectionModel>, n: nat) -> Seq<
    SymbolModel,
>
    decreases n,
{
    if n == 0 {
        Seq::empty()
    } else {
        let before = symbols_of_tables::<E>(sections, (n - 1) as nat);
        match sections[n - 1].header.section_type {
            SectionType::SymbolTable | SectionType::DynSym => before + spec_parse_symbols::<
                E::Symbol,
            >(n - 1, sections)->Ok_0,
            _ => before,
        }
    }
}

/// The relocation tables `rels` come from `Rel` or `Rela` sections among the
/// first `n` of `sections`, in strictly increasing section order.
pub open spec fn relocations_in_section_order(
    rels: Seq<super::relocation::RelocationSectionModel>,
    sections: Seq<SectionModel>,
    n: int,
) -> bool {
    &&& forall|k: int|
        0 <= k < rels.len() ==> {
            let i = (#[trigger] rels[k]).section_index as int;
            &&& i < n
            &&& (sections[i].header.section_type == SectionType::Rel
                || sections[i].header.section_type == SectionType::Rela)
        }
    &&& forall|k: int, l: int|
        0 <= k < l < rels.len() ==> (#[trigger] rels[k]).section_index < (#[trigger] rels[
            l
        ]).section_index
}

/// Each relocation table of `rels` is the one read, with the layouts `E`,
/// from the `Rel` or `Rela` section of `sections` that it names.
pub open spec fn relocations_read<E: ElfTypes>(
    rels: Seq<super::relocation::RelocationSectionModel>,
    sections: Seq<SectionModel>,
) -> bool {
    forall|k: int|
        0 <= k < rels.len() ==> {
            let i = (#[trigger] rels[k]).section_index as int;
            &&& sections[i].header.section_type == SectionType::Rel
                ==> super::relocation::spec_parse_relocations::<E::Rel>(i, sections) == Some(rels[k])
            &&& sections[i].header.section_type == SectionType::Rela
                ==> super::relocation::spec_parse_relocations::<E::Rela>(i, sections) == Some(rels[k])
        }
}

/// The dynamic section `d` gathered from the first `n` of `sections`: there
/// is none exactly when none of them is `Dynamic`; otherwise it is the last
/// `Dynamic` one, read with the layout `T`.
pub open spec fn dynamic_is_last<T: RawDynamic>(
    d: Option<DynamicSectionModel>,
    sections: Seq<SectionModel>,
    n: int,
) -> bool {
    &&& (d is None <==> forall|i: int|
        0 <= i < n ==> (#[trigger] sections[i]).header.section_type != SectionType::Dynamic)
    &&& d matches Some(dm) ==> {
        let k = dm.section_index as int;
        &&& k < n
        &&& sections[k].header.section_type == SectionType::Dynamic
        &&& forall|j: int|
            k < j < n ==> (#[trigger] sections[j]).header.section_type != SectionType::Dynamic
        &&& spec_parse_dynamic::<T>(dm.section_index, sections[k]) == Ok::<
            Option<DynamicSectionModel>,
            ElfError,
        >(d)
    }
}

/// What the pass over the first `n` sections gathers, when it succeeds:
/// the symbols of the symbol tables in section order, the relocation
/// tables of `Rel` and `Rela` sections in section order, and the last
/// `Dynamic` section.
pub proof fn lemma_analyze_gathers<E: ElfTypes>(sections: Seq<SectionModel>, n: nat)
    requires
        n <= sections.len() <= usize::MAX,
        spec_analyze::<E>(sections, n) is Ok,
    ensures
        ({
            let a = spec_analyze::<E>(sections, n)->Ok_0;
            &&& a.symbols == symbols_of_tables::<E>(sections, n)
            &&& relocations_in_section_order(a.relocations, sections, n as int)
            &&& relocations_read::<E>(a.relocations, sections)
            &&& dynamic_is_last::<E::Dynamic>(a.dynamic, sections, n as int)
        }),
    decreases n,
{
    if n > 0 {
        let m = (n - 1) as nat;
        assert(spec_analyze::<E>(sections, m) is Ok);
        lemma_analyze_gathers::<E>(sections, m);
        let acc = spec_analyze::<E>(sections, m)->Ok_0;
        let a = spec_analyze::<E>(sections, n)->Ok_0;
        let t = sections[m as int].header.section_type;
        if t == SectionType::Rel || t == SectionType::Rela {
            let added = a.relocations.subrange(acc.relocations.len() as int, a.relocations.len() as int);
            assert(a.relocations == acc.relocations + added);
            assert(added.len() <= 1);
            assert forall|k: int| 0 <= k < added.len() implies (#[trigger] added[k]).section_index
                == m by {
            }
            assert forall|k: int| 0 <= k < a.relocations.len() implies {
                let i = (#[trigger] a.relocations[k]).section_index as int;
                &&& i < n
                &&& (sections[i].header.section_type == SectionType::Rel
                    || sections[i].header.section_type == SectionType::Rela)
            } by {
                if k >= acc.relocations.len() {
                    assert(a.relocations[k] == added[k - acc.relocations.len()]);
                } else {
                    assert(a.relocations[k] == acc.relocations[k]);
                }
            }
            assert forall|k: int| 0 <= k < a.relocations.len() implies {
                let i = (#[trigger] a.relocations[k]).section_index as int;
                &&& sections[i].header.section_type == SectionType::Rel
                    ==> super::relocation::spec_parse_relocations::<E::Rel>(i, sections) == Some(
                    a.relocations[k],
                )
                &&& sections[i].header.section_type == SectionType::Rela
                    ==> super::relocation::spec_parse_relocations::<E::Rela>(i, sections) == Some(
                    a.relocations[k],
                )
            } by {
                if k >= acc.relocations.len() {
                    assert(a.relocations[k] == added[k - acc.relocations.len()]);
                } else {
                    assert(a.relocations[k] == acc.relocations[k]);
                }
            }
            assert forall|k: int, l: int| 0 <= k < l < a.relocations.len() implies (
            #[trigger] a.relocations[k]).section_index < (#[trigger] a.relocations[l]).section_index by {
                if l >= acc.relocations.len() {
                    assert(a.relocations[l] == added[l - acc.relocations.len()]);
                    assert(a.relocations[k] == acc.relocations[k]);
                } else {
                    assert(a.relocations[k] == acc.relocations[k]);
                    assert(a.relocations[l] == acc.relocations[l]);
                }
            }
        }
        if t == SectionType::Dynamic {
            let d = a.dynamic->Some_0;
            assert(d.section_index as int == m);
        } else {
            assert(a.dynamic == acc.dynamic);
        }
    }
}

/// What an image read with the layouts `E` gathers from its sections.
pub proof fn lemma_parse_impl_gathers<E: ElfTypes>(b: Seq<u8>)
    requires
        spec_parse_impl::<E>(b) is Ok,
    ensures
        ({
            let f = spec_parse_impl::<E>(b)->Ok_0;
            &&& f.symbols == symbols_of_tables::<E>(f.sections, f.sections.len())
            &&& relocations_in_section_order(f.relocations, f.sections, f.sections.len() as int)
            &&& relocations_read::<E>(f.relocations, f.sections)
            &&& dynamic_is_last::<E::Dynamic>(f.dynamic, f.sections, f.sections.len() as int)
        }),
{
    lemma_parse_impl_layout::<E>(b);
    let f = spec_parse_impl::<E>(b)->Ok_0;
    assert(spec_analyze::<E>(f.sections, f.sections.len()) is Ok);
    lemma_analyze_gathers::<E>(f.sections, f.sections.len());
}

/// The symbols of a parsed image are those of all its symbol tables
/// (`SymbolTable` and `DynSym` sections), one table after the other in
/// section order, each read with the layout of the image's class.
pub proof fn lemma_parse_file_symbols(b: Seq<u8>)
    requires
        spec_parse_file(b) is Ok,
    ensures
        ({
            let f = spec_parse_file(b)->Ok_0;
            &&& b[4] == 1 ==> f.symbols == symbols_of_tables::<Elf32Types>(f.sections, f.sections.len())
            &&& b[4] == 2 ==> f.symbols == symbols_of_tables::<Elf64Types>(f.sections, f.sections.len())
        }),
{
    if b[4] == 1 {
        lemma_parse_impl_gathers::<Elf32Types>(b);
    } else {
        lemma_parse_impl_gathers::<Elf64Types>(b);
    }
}

/// The relocation tables of a parsed image come only from `Rel` and `Rela`
/// sections, and in strictly increasing section order.
pub proof fn lemma_parse_file_relocation_order(b: Seq<u8>)
    requires
        spec_parse_file(b) is Ok,
    ensures
        ({
            let f = spec_parse_file(b)->Ok_0;
            relocations_in_section_order(f.relocations, f.sections, f.sections.len() as int)
        }),
{
    if b[4] == 1 {
        lemma_parse_impl_gathers::<Elf32Types>(b);
    } else {
        lemma_parse_impl_gathers::<Elf64Types>(b);
    }
}

/// A parsed image has no dynamic section exactly when none of its sections
/// is `Dynamic`; otherwise its dynamic section is read from the last
/// `Dynamic` section, with the layout of the image's class.
pub proof fn lemma_parse_file_dynamic_is_last(b: Seq<u8>)
    requires
        spec_parse_file(b) is Ok,
    ensures
        ({
            let f = spec_parse_file(b)->Ok_0;
            &&& b[4] == 1 ==> dynamic_is_last::<<Elf32Types as ElfTypes>::Dynamic>(
                f.dynamic,
                f.sections,
                f.sections.len() as int,
            )
            &&& b[4] == 2 ==> dynamic_is_last::<<Elf64Types as ElfTypes>::Dynamic>(
                f.dynamic,
                f.sections,
                f.sections.len() as int,
            )
        }),
{
    if b[4] == 1 {
        lemma_parse_impl_gathers::<Elf32Types>(b);
    } else {
        lemma_parse_impl_gathers::<Elf64Types>(b);
    }
}

/// The images that `parse` refuses for their first bytes: fewer than 16
/// bytes, a wrong magic, or a class other than 1 and 2.
pub proof fn lemma_parse_file_ident_errors(b: Seq<u8>)
    ensures
        b.len() < 16 ==> spec_parse_file(b) == Err::<FileModel, ElfError>(ElfError::UnexpectedEOF),
        b.len() >= 16 && !(b[0] == 0x7f && b[1] == 0x45 && b[2] == 0x4c && b[3] == 0x46)
            ==> spec_parse_file(b) == Err::<FileModel, ElfError>(ElfError::InvalidMagic),
        b.len() >= 16 && b[0] == 0x7f && b[1] == 0x45 && b[2] == 0x4c && b[3] == 0x46 && b[4]
            != 1 && b[4] != 2 ==> spec_parse_file(b) == Err::<FileModel, ElfError>(
            ElfError::UnknownClass(b[4]),
        ),
{
}

/// The entries of a parsed dynamic section stop before the first `DT_NULL`:
/// none of them is `DT_NULL`.
pub proof fn lemma_dynamic_entries_not_null<T: RawDynamic>(index: usize, section: SectionModel)
    requires
        spec_parse_dynamic::<T>(index, section) is Ok,
    ensures
        spec_parse_dynamic::<T>(index, section)->Ok_0 is Some,
        forall|i: int|
            0 <= i < spec_parse_dynamic::<T>(index, section)->Ok_0->Some_0.entries.len()
                ==> (#[trigger] spec_parse_dynamic::<T>(index, section)->Ok_0->Some_0.entries[i]).tag
                != DynamicTag::Null,
{
    let entsize = section.header.entry_size as int;
    let all = super::dynamic::dynamic_table::<T>(section.data, entsize);
    lemma_first_null_from(all, 0);
}

/// `first_null_from(s, k)` is the first index at or after `k` whose tag is
/// `DT_NULL`, or the length of `s`.
pub proof fn lemma_first_null_from(s: Seq<DynamicEntryModel>, k: int)
    requires
        0 <= k <= s.len(),
    ensures
        k <= first_null_from(s, k) <= s.len(),
        forall|j: int| k <= j < first_null_from(s, k) ==> (#[trigger] s[j]).tag != DynamicTag::Null,
        first_null_from(s, k) < s.len() ==> s[first_null_from(s, k)].tag == DynamicTag::Null,
    decreases s.len() - k,
{
    if k < s.len() && s[k].tag != DynamicTag::Null {
        lemma_first_null_from(s, k + 1);
    }
}

/// `first_nul_from(t, i)` is the first index at or after `i` that holds a
/// NUL byte.
pub proof fn lemma_first_nul_from(t: Seq<u8>, i: int)
    requires
        0 <= i <= t.len(),
    ensures
        first_nul_from(t, i) matches Some(end) ==> i <= end < t.len() && t[end] == 0 && forall|
            k: int,
        |
            i <= k < end ==> #[trigger] t[k] != 0,
        first_nul_from(t, i) is None ==> forall|k: int| i <= k < t.len() ==> #[trigger] t[k] != 0,
    decreases t.len() - i,
{
    if i < t.len() && t[i] != 0 {
        lemma_first_nul_from(t, i + 1);
    }
}

/// A string read from a string table is the UTF-8 text of the bytes from
/// its offset up to, and without, the next NUL byte: none of those bytes is
/// NUL, and the byte after them is.
pub proof fn lemma_get_string_terminated(t: Seq<u8>, offset: u32)
    requires
        spec_get_string(t, offset) is Ok,
    ensures
        exists|end: int|
            {
                &&& offset <= end < t.len()
                &&& t[end] == 0
                &&& forall|k: int| offset <= k < end ==> #[trigger] t[k] != 0
                &&& spec_get_string(t, offset)->Ok_0 == decode_utf8(t.subrange(offset as int, end))
            },
{
    lemma_first_nul_from(t, offset as int);
    let end = first_nul_from(t, offset as int)->Some_0;
    assert(offset <= end < t.len() && t[end] == 0);
}

/// The symbol index and the type of a relocation together keep all of
/// `r_info`: `info == symbol_index * 2^32 + type`.
pub proof fn lemma_relocation_info_split(info: u64)
    ensures
        info_symbol(info) as int * 0x1_0000_0000 + info_type(info) as int == info as int,
{
}

} // verus!
