use vstd::prelude::*;

use super::collect::{collect, lemma_collect_err_stable};
use super::constants::SHN_XINDEX;
use super::dynamic::{DynamicSectionModel, ElfDynamicSection, parse_dynamic, spec_parse_dynamic};
use super::enums::SectionType;
use super::error::ElfError;
use super::header::{ElfHeader, HeaderModel, parse_header, result_view, spec_parse_header};
use super::program::{ElfSegment, SegmentModel, parse_segments, spec_parse_segments};
use super::raw::{Elf32Types, Elf64Types, ElfTypes};
use super::relocation::{
    ElfRelocationSection, RelocationSectionModel, parse_relocations, spec_parse_relocations,
};
use super::section::{
    ElfSection, SectionModel, parse_sections, sections_of_type, spec_parse_sections,
};
use super::symbols::{ElfSymbol, SymbolModel, parse_symbols, spec_parse_symbols};
use super::utility::{get_string, spec_get_string};

verus! {

/// The abstract content of an [`ElfFile`].
pub struct FileModel {
    pub bytes: Seq<u8>,
    pub header: HeaderModel,
    pub segments: Seq<SegmentModel>,
    pub sections: Seq<SectionModel>,
    pub symbols: Seq<SymbolModel>,
    pub relocations: Seq<RelocationSectionModel>,
    pub dynamic: Option<DynamicSectionModel>,
}

/// What the pass over the sections gathers: the symbols of every symbol
/// table, the relocation tables, and the dynamic section.
pub struct AnalysisModel {
    pub symbols: Seq<SymbolModel>,
    pub relocations: Seq<RelocationSectionModel>,
    pub dynamic: Option<DynamicSectionModel>,
}

/// The index of the section that holds the section names: `e_shstrndx`, or
/// the `sh_link` of section 0 when `e_shstrndx` is `SHN_XINDEX`; it must
/// name one of `sections`.
pub open spec fn spec_name_table_index(h: HeaderModel, sections: Seq<SectionModel>) -> Result<
    int,
    ElfError,
> {
    if h.section_name_table_index == SHN_XINDEX {
        if sections.len() == 0 {
            Err(ElfError::InvalidSectionIndex)
        } else if sections[0].header.link >= sections.len() {
            Err(ElfError::InvalidSectionIndex)
        } else {
            Ok(sections[0].header.link as int)
        }
    } else if h.section_name_table_index >= sections.len() {
        Err(ElfError::InvalidSectionIndex)
    } else {
        Ok(h.section_name_table_index as int)
    }
}

/// `s` with the name that starts at its `sh_name` in the name table
/// `strtab`.
pub open spec fn named_section(s: SectionModel, strtab: Seq<u8>) -> Result<SectionModel, ElfError> {
    match spec_get_string(strtab, s.header.name_offset) {
        Ok(name) => Ok(SectionModel { header: s.header, name: Some(name), data: s.data }),
        Err(e) => Err(e),
    }
}

/// Every section of `sections` named through `strtab`, or the error of the
/// first name that cannot be read.
pub open spec fn spec_name_sections(sections: Seq<SectionModel>, strtab: Seq<u8>) -> Result<
    Seq<SectionModel>,
    ElfError,
> {
    collect(sections.len(), |k: int| named_section(sections[k], strtab))
}

/// The sequence that holds `o`'s value, if any.
pub open spec fn option_seq<A>(o: Option<A>) -> Seq<A> {
    match o {
        Some(a) => seq![a],
        None => Seq::empty(),
    }
}

/// What the section at `i` adds to `acc`: the symbols of a symbol table,
/// the dynamic section (replacing an earlier one), or a relocation table.
pub open spec fn analysis_step<E: ElfTypes>(
    sections: Seq<SectionModel>,
    i: int,
    acc: AnalysisModel,
) -> Result<AnalysisModel, ElfError> {
    match sections[i].header.section_type {
        SectionType::SymbolTable | SectionType::DynSym => match spec_parse_symbols::<E::Symbol>(
            i,
            sections,
        ) {
            Ok(s) => Ok(
                AnalysisModel {
                    symbols: acc.symbols + s,
                    relocations: acc.relocations,
                    dynamic: acc.dynamic,
                },
            ),
            Err(e) => Err(e),
        },
        SectionType::Dynamic => match spec_parse_dynamic::<E::Dynamic>(i as usize, sections[i]) {
            Ok(d) => Ok(
                AnalysisModel { symbols: acc.symbols, relocations: acc.relocations, dynamic: d },
            ),
            Err(e) => Err(e),
        },
        SectionType::Rel => Ok(
            AnalysisModel {
                symbols: acc.symbols,
                relocations: acc.relocations + option_seq(
                    spec_parse_relocations::<E::Rel>(i, sections),
                ),
                dynamic: acc.dynamic,
            },
        ),
        SectionType::Rela => Ok(
            AnalysisModel {
                symbols: acc.symbols,
                relocations: acc.relocations + option_seq(
                    spec_parse_relocations::<E::Rela>(i, sections),
                ),
                dynamic: acc.dynamic,
            },
        ),
        _ => Ok(acc),
    }
}

/// The result of the pass over the first `n` sections, in order; the first
/// error stops it.
pub open spec fn spec_analyze<E: ElfTypes>(sections: Seq<SectionModel>, n: nat) -> Result<
    AnalysisModel,
    ElfError,
>
    decreases n,
{
    if n == 0 {
        Ok(AnalysisModel { symbols: Seq::empty(), relocations: Seq::empty(), dynamic: None })
    } else {
        match spec_analyze::<E>(sections, (n - 1) as nat) {
            Err(e) => Err(e),
            Ok(acc) => analysis_step::<E>(sections, n - 1, acc),
        }
    }
}

/// Once the pass fails, it fails with the same error on every longer prefix.
pub proof fn lemma_analyze_err_stable<E: ElfTypes>(sections: Seq<SectionModel>, m: nat, n: nat)
    requires
        m <= n,
        spec_analyze::<E>(sections, m) is Err,
    ensures
        spec_analyze::<E>(sections, n) == spec_analyze::<E>(sections, m),
    decreases n - m,
{
    if m < n {
        lemma_analyze_err_stable::<E>(sections, m, (n - 1) as nat);
    }
}

/// The image `b` read with the layouts `E`: header, segments, sections (then
/// their names), and the pass over the sections, in this order; the first
/// error stops the reading.
pub open spec fn spec_parse_impl<E: ElfTypes>(b: Seq<u8>) -> Result<FileModel, ElfError> {
    match spec_parse_header::<E::Header>(b) {
        Err(e) => Err(e),
        Ok(h) => match spec_parse_segments::<E::ProgramHeader>(b, h) {
            Err(e) => Err(e),
            Ok(segments) => match spec_parse_sections::<E::SectionHeader>(b, h) {
                Err(e) => Err(e),
                Ok(unnamed) => match spec_name_table_index(h, unnamed) {
                    Err(e) => Err(e),
                    Ok(strndx) => match spec_name_sections(unnamed, unnamed[strndx].data) {
                        Err(e) => Err(e),
                        Ok(sections) => match spec_analyze::<E>(sections, sections.len()) {
                            Err(e) => Err(e),
                            Ok(a) => Ok(
                                FileModel {
                                    bytes: b,
                                    header: h,
                                    segments,
                                    sections,
                                    symbols: a.symbols,
                                    relocations: a.relocations,
                                    dynamic: a.dynamic,
                                },
                            ),
                        },
                    },
                },
            },
        },
    }
}

/// True when `b` starts with the ELF magic `\x7fELF`.
pub open spec fn has_elf_magic(b: Seq<u8>) -> bool {
    b.len() >= 4 && b[0] == 0x7f && b[1] == 0x45 && b[2] == 0x4c && b[3] == 0x46
}

/// The ELF image `b`, read as described by the class byte `e_ident[4]`
/// (1: 32-bit layouts, 2: 64-bit layouts).
pub open spec fn spec_parse_file(b: Seq<u8>) -> Result<FileModel, ElfError> {
    if b.len() < 16 {
        Err(ElfError::UnexpectedEOF)
    } else if !has_elf_magic(b) {
        Err(ElfError::InvalidMagic)
    } else if b[4] == 1 {
        spec_parse_impl::<Elf32Types>(b)
    } else if b[4] == 2 {
        spec_parse_impl::<Elf64Types>(b)
    } else {
        Err(ElfError::UnknownClass(b[4]))
    }
}

/// A parsed ELF image; segments, sections and names borrow from the bytes
/// it was read from.
pub struct ElfFile<'a> {
    bytes: &'a [u8],
    header: ElfHeader,
    segments: Vec<ElfSegment<'a>>,
    sections: Vec<ElfSection<'a>>,
    symbols: Vec<ElfSymbol<'a>>,
    relocations: Vec<ElfRelocationSection>,
    dynamic: Option<ElfDynamicSection>,
}

impl<'a> DeepView for ElfFile<'a> {
    type V = FileModel;

    closed spec fn deep_view(&self) -> FileModel {
        FileModel {
            bytes: self.bytes@,
            header: self.header.deep_view(),
            segments: self.segments.deep_view(),
            sections: self.sections.deep_view(),
            symbols: self.symbols.deep_view(),
            relocations: self.relocations.deep_view(),
            dynamic: self.dynamic.deep_view(),
        }
    }
}

impl<'a> ElfFile<'a> {
    pub fn header(&self) -> (r: &ElfHeader)
        ensures
            r.deep_view() == self.deep_view().header,
    {
        &self.header
    }

    pub fn segments(&self) -> (r: &[ElfSegment<'a>])
        ensures
            r.deep_view() == self.deep_view().segments,
    {
        self.segments.as_slice()
    }

    pub fn sections(&self) -> (r: &[ElfSection<'a>])
        ensures
            r.deep_view() == self.deep_view().sections,
    {
        self.sections.as_slice()
    }

    pub fn symbols(&self) -> (r: &[ElfSymbol<'a>])
        ensures
            r.deep_view() == self.deep_view().symbols,
    {
        self.symbols.as_slice()
    }

    pub fn relocations(&self) -> (r: &[ElfRelocationSection])
        ensures
            r.deep_view() == self.deep_view().relocations,
    {
        self.relocations.as_slice()
    }

    pub fn dynamic(&self) -> (r: &Option<ElfDynamicSection>)
        ensures
            r.deep_view() == self.deep_view().dynamic,
    {
        &self.dynamic
    }

    /// The sections whose type is `ty`, in their order.
    pub fn sections_by_type(&self, ty: SectionType) -> (r: Vec<&ElfSection<'a>>)
        ensures
            r.deep_view() == sections_of_type(self.deep_view().sections, ty),
    {
        let sections = self.sections();
        let ghost all = sections.deep_view();
        let ghost pred = |s: SectionModel| s.header.section_type == ty;
        let mut r: Vec<&ElfSection<'a>> = Vec::new();
        let mut i: usize = 0;
        assert(r.deep_view() =~= all.take(0).filter(pred));
        while i < sections.len()
            invariant
                all == sections.deep_view(),
                pred == (|s: SectionModel| s.header.section_type == ty),
                i <= sections@.len(),
                r.deep_view() =~= all.take(i as int).filter(pred),
            decreases sections@.len() - i,
        {
            reveal_with_fuel(Seq::<_>::filter, 1);
            let section = &sections[i];
            let ghost old_view = r.deep_view();
            if section.section_type() == ty {
                r.push(section);
                assert(r.deep_view() =~= old_view.push(section.deep_view()));
            }
            assert(all.take(i + 1).drop_last() =~= all.take(i as int));
            i = i + 1;
        }
        assert(all.take(sections@.len() as int) =~= all);
        r
    }

    /// Reads the ELF image `bytes`: checks the magic, then reads it with
    /// the layouts of the class that `e_ident[EI_CLASS]` names.
    pub fn parse(bytes: &'a [u8]) -> (r: Result<Self, ElfError>)
        ensures
            result_view(r) == spec_parse_file(bytes@),
    {
        if bytes.len() < 16 {
            return Err(ElfError::UnexpectedEOF);
        }
        let ident = &bytes[0..16];

        if ident[0] != 0x7f || ident[1] != 0x45 || ident[2] != 0x4c || ident[3] != 0x46 {
            return Err(ElfError::InvalidMagic);
        }

        match ident[4] {
            1 => Self::parse_impl::<Elf32Types>(bytes),
            2 => Self::parse_impl::<Elf64Types>(bytes),
            other => Err(ElfError::UnknownClass(other)),
        }
    }

    #[verifier::loop_isolation(false)]
    fn parse_impl<E: ElfTypes>(bytes: &'a [u8]) -> (r: Result<Self, ElfError>)
        ensures
            result_view(r) == spec_parse_impl::<E>(bytes@),
    {
        let header = match parse_header::<E::Header>(bytes) {
            Ok(h) => h,
            Err(e) => return Err(e),
        };
        let ghost h = header.deep_view();

        let segments = match parse_segments::<E::ProgramHeader>(bytes, &header) {
            Ok(s) => s,
            Err(e) => return Err(e),
        };

        let sections = match parse_sections::<E::SectionHeader>(bytes, &header) {
            Ok(s) => s,
            Err(e) => return Err(e),
        };
        let ghost unnamed = sections.deep_view();

        let mut strndx = header.section_name_table_index();
        if strndx == SHN_XINDEX {
            if sections.len() == 0 {
                return Err(ElfError::InvalidSectionIndex);
            }
            strndx = sections[0].header().link();
        }
        if strndx as usize >= sections.len() {
            return Err(ElfError::InvalidSectionIndex);
        }
        let strtab_data = sections[strndx as usize].data();
        assert(strtab_data@ == unnamed[strndx as int].data);

        let ghost f = |k: int| named_section(unnamed[k], unnamed[strndx as int].data);
        let mut named: Vec<ElfSection<'a>> = Vec::new();
        let mut k: usize = 0;
        assert(named.deep_view() =~= Seq::<SectionModel>::empty());
        while k < sections.len()
            invariant
                unnamed == sections.deep_view(),
                f == (|k: int| named_section(unnamed[k], unnamed[strndx as int].data)),
                strtab_data@ == unnamed[strndx as int].data,
                k <= sections@.len(),
                collect(k as nat, f) == Ok::<Seq<SectionModel>, ElfError>(named.deep_view()),
            decreases sections@.len() - k,
        {
            let mut section = sections[k];
            let name = match get_string(strtab_data, section.name_offset()) {
                Ok(name) => name,
                Err(e) => {
                    proof {
                        lemma_collect_err_stable(f, (k + 1) as nat, sections@.len());
                    }
                    return Err(e);
                },
            };
            section.set_name(name);
            let ghost old_view = named.deep_view();
            named.push(section);
            proof {
                assert(named.deep_view() =~= old_view.push(section.deep_view()));
            }
            k = k + 1;
        }
        let ghost secs = named.deep_view();
        assert(spec_name_sections(unnamed, unnamed[strndx as int].data) == Ok::<
            Seq<SectionModel>,
            ElfError,
        >(secs));

        let mut symbols: Vec<ElfSymbol<'a>> = Vec::new();
        let mut relocation_sections: Vec<ElfRelocationSection> = Vec::new();
        let mut dynamic: Option<ElfDynamicSection> = None;

        let mut index: usize = 0;
        assert(symbols.deep_view() =~= Seq::<SymbolModel>::empty());
        assert(relocation_sections.deep_view() =~= Seq::<RelocationSectionModel>::empty());
        while index < named.len()
            invariant
                secs == named.deep_view(),
                index <= secs.len(),
                spec_analyze::<E>(secs, index as nat) == Ok::<AnalysisModel, ElfError>(
                    AnalysisModel {
                        symbols: symbols.deep_view(),
                        relocations: relocation_sections.deep_view(),
                        dynamic: dynamic.deep_view(),
                    },
                ),
            decreases secs.len() - index,
        {
            let section = &named[index];
            match section.section_type() {
                SectionType::SymbolTable | SectionType::DynSym => {
                    let mut found = match parse_symbols::<E::Symbol>(index, named.as_slice()) {
                        Ok(s) => s,
                        Err(e) => {
                            proof {
                                lemma_analyze_err_stable::<E>(
                                    secs,
                                    (index + 1) as nat,
                                    secs.len(),
                                );
                            }
                            return Err(e);
                        },
                    };
                    let ghost old_view = symbols.deep_view();
                    let ghost found_view = found.deep_view();
                    symbols.append(&mut found);
                    proof {
                        assert(symbols.deep_view() =~= old_view + found_view);
                    }
                },
                SectionType::Dynamic => {
                    dynamic = match parse_dynamic::<E::Dynamic>(index, section) {
                        Ok(d) => d,
                        Err(e) => {
                            proof {
                                lemma_analyze_err_stable::<E>(
                                    secs,
                                    (index + 1) as nat,
                                    secs.len(),
                                );
                            }
                            return Err(e);
                        },
                    };
                },
                SectionType::Rel => {
                    let ghost old_view = relocation_sections.deep_view();
                    match parse_relocations::<E::Rel>(index, named.as_slice()) {
                        Some(rs) => {
                            relocation_sections.push(rs);
                            proof {
                                assert(relocation_sections.deep_view() =~= old_view + seq![
                                    rs.deep_view(),
                                ]);
                            }
                        },
                        None => {
                            assert(relocation_sections.deep_view() =~= old_view + Seq::<
                                RelocationSectionModel,
                            >::empty());
                        },
                    }
                },
                SectionType::Rela => {
                    let ghost old_view = relocation_sections.deep_view();
                    match parse_relocations::<E::Rela>(index, named.as_slice()) {
                        Some(rs) => {
                            relocation_sections.push(rs);
                            proof {
                                assert(relocation_sections.deep_view() =~= old_view + seq![
                                    rs.deep_view(),
                                ]);
                            }
                        },
                        None => {
                            assert(relocation_sections.deep_view() =~= old_view + Seq::<
                                RelocationSectionModel,
                            >::empty());
                        },
                    }
                },
                _ => {},
            }
            index = index + 1;
        }

        Ok(
            Self {
                bytes,
                header,
                segments,
                sections: named,
                symbols,
                relocations: relocation_sections,
                dynamic,
            },
        )
    }
}

} // verus!
