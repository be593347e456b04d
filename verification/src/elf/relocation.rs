use vstd::prelude::*;

use super::enums::RelocationType;
use super::raw::{RawRelocation, RelocationFields};
use super::raw::relocation::{info_symbol, info_type};
use super::section::{ElfSection, SectionModel};
use super::symbols::{ElfSymbol, lemma_table_entry_bounds, table_entry, table_len};

verus! {

/// The abstract content of an [`ElfRelocation`].
pub struct RelocationModel {
    pub offset: u64,
    pub symbol_index: u32,
    pub relocation_type: RelocationType,
    pub addend: Option<i64>,
}

/// The relocation that the raw fields `f` describe: the symbol index is
/// the high word of `r_info`, the type its low word.
pub open spec fn relocation_model(f: RelocationFields) -> RelocationModel {
    RelocationModel {
        offset: f.offset,
        symbol_index: info_symbol(f.info),
        relocation_type: RelocationType(info_type(f.info)),
        addend: f.addend,
    }
}

/// A relocation entry, in a form that does not depend on the layout.
pub struct ElfRelocation {
    offset: u64,
    symbol_index: u32,
    relocation_type: RelocationType,
    addend: Option<i64>,
}

impl DeepView for ElfRelocation {
    type V = RelocationModel;

    closed spec fn deep_view(&self) -> RelocationModel {
        RelocationModel {
            offset: self.offset,
            symbol_index: self.symbol_index,
            relocation_type: self.relocation_type,
            addend: self.addend,
        }
    }
}

impl ElfRelocation {
    pub(crate) fn from<T: RawRelocation>(raw: &T) -> (r: Self)
        ensures
            r.deep_view() == relocation_model(raw.fields()),
    {
        Self {
            offset: raw.offset(),
            symbol_index: raw.symbol_index(),
            relocation_type: raw.relocation_type(),
            addend: raw.addend(),
        }
    }

    /// The symbol that this relocation refers to, if `symbols` has one at
    /// its index.
    pub fn symbol<'a>(&self, symbols: &'a [ElfSymbol<'a>]) -> (r: Option<&'a ElfSymbol<'a>>)
        ensures
            r is Some <==> self.deep_view().symbol_index < symbols@.len(),
            r matches Some(s) ==> *s == symbols@[self.deep_view().symbol_index as int],
    {
        let index = self.symbol_index as usize;
        if index < symbols.len() {
            Some(&symbols[index])
        } else {
            None
        }
    }

    pub fn offset(&self) -> (r: u64)
        ensures
            r == self.deep_view().offset,
    {
        self.offset
    }

    pub fn symbol_index(&self) -> (r: u32)
        ensures
            r == self.deep_view().symbol_index,
    {
        self.symbol_index
    }

    pub fn relocation_type(&self) -> (r: RelocationType)
        ensures
            r == self.deep_view().relocation_type,
    {
        self.relocation_type
    }

    pub fn addend(&self) -> (r: Option<i64>)
        ensures
            r == self.deep_view().addend,
    {
        self.addend
    }
}

/// The abstract content of an [`ElfRelocationSection`].
pub struct RelocationSectionModel {
    pub section_index: usize,
    pub relocations: Seq<RelocationModel>,
}

/// The relocations read from one `Rel` or `Rela` section.
pub struct ElfRelocationSection {
    section_index: usize,
    relocations: Vec<ElfRelocation>,
}

impl DeepView for ElfRelocationSection {
    type V = RelocationSectionModel;

    closed spec fn deep_view(&self) -> RelocationSectionModel {
        RelocationSectionModel {
            section_index: self.section_index,
            relocations: self.relocations.deep_view(),
        }
    }
}

impl ElfRelocationSection {
    pub fn new(section_index: usize, relocations: Vec<ElfRelocation>) -> (r: Self)
        ensures
            r.deep_view() == (RelocationSectionModel {
                section_index,
                relocations: relocations.deep_view(),
            }),
    {
        Self { section_index, relocations }
    }

    pub fn relocations(&self) -> (r: &[ElfRelocation])
        ensures
            r.deep_view() == self.deep_view().relocations,
    {
        self.relocations.as_slice()
    }

    pub fn section_index(&self) -> (r: usize)
        ensures
            r == self.deep_view().section_index,
    {
        self.section_index
    }

    /// The section that the relocations were read from, if `sections` has
    /// one at that index.
    pub fn section<'a>(&self, sections: &'a [ElfSection<'a>]) -> (r: Option<&'a ElfSection<'a>>)
        ensures
            r is Some <==> self.deep_view().section_index < sections@.len(),
            r matches Some(s) ==> *s == sections@[self.deep_view().section_index as int],
    {
        if self.section_index < sections.len() {
            Some(&sections[self.section_index])
        } else {
            None
        }
    }
}

/// The relocation table that `parse_relocations::<T>` reads from the section
/// at `index` of `sections`: one relocation per whole entry of `sh_entsize`
/// bytes; nothing when the index names no section, the entry size is zero,
/// or the entries are shorter than layout `T`.
pub open spec fn spec_parse_relocations<T: RawRelocation>(
    index: int,
    sections: Seq<SectionModel>,
) -> Option<RelocationSectionModel> {
    if index < 0 || index >= sections.len() {
        None
    } else {
        let section = sections[index];
        let entsize = section.header.entry_size as int;
        if entsize == 0 {
            None
        } else if table_len(section.data, entsize) > 0 && entsize < T::encoded_size() {
            None
        } else {
            Some(
                RelocationSectionModel {
                    section_index: index as usize,
                    relocations: Seq::new(
                        table_len(section.data, entsize),
                        |k: int| relocation_model(T::decode(table_entry(section.data, entsize, k))),
                    ),
                },
            )
        }
    }
}

/// Reads the relocation table at `section_index` of `sections`, with layout
/// `T`.
pub fn parse_relocations<'a, T: RawRelocation>(
    section_index: usize,
    sections: &[ElfSection<'a>],
) -> (r: Option<ElfRelocationSection>)
    ensures
        r.deep_view() == spec_parse_relocations::<T>(section_index as int, sections.deep_view()),
{
    let ghost secs = sections.deep_view();
    if section_index >= sections.len() {
        return None;
    }
    let section = &sections[section_index];
    let section_data = section.data();
    let entsize = section.entry_size();
    if entsize == 0 {
        return None;
    }

    let len = section_data.len() as u64;
    let count = len / entsize;
    let ghost sec = secs[section_index as int];
    assert(sec.data == section_data@);
    let mut relocations: Vec<ElfRelocation> = Vec::new();
    let mut k: u64 = 0;
    while k < count
        invariant
            secs == sections.deep_view(),
            section_index < secs.len(),
            sec == secs[section_index as int],
            sec.data == section_data@,
            entsize == sec.header.entry_size,
            entsize > 0,
            len == section_data@.len(),
            section_data@.len() <= usize::MAX,
            count == len / entsize,
            k <= count,
            k > 0 ==> entsize >= T::encoded_size(),
            relocations@.len() == k,
            forall|j: int|
                0 <= j < k ==> (#[trigger] relocations.deep_view()[j]) == relocation_model(
                    T::decode(table_entry(sec.data, entsize as int, j)),
                ),
        decreases count - k,
    {
        proof {
            lemma_table_entry_bounds(len as int, entsize as int, k as int);
        }
        let start = k * entsize;
        let end = start + entsize;
        assert(start as int == (k as int) * (entsize as int));
        let chunk = &section_data[start as usize..end as usize];
        assert(chunk@ == table_entry(sec.data, entsize as int, k as int));
        let raw = match T::from_bytes(chunk) {
            Ok(raw) => raw,
            Err(_) => {
                return None;
            },
        };
        let relocation = ElfRelocation::from(&raw);
        let ghost old_view = relocations.deep_view();
        relocations.push(relocation);
        proof {
            assert(relocations.deep_view() =~= old_view.push(relocation.deep_view()));
        }
        k = k + 1;
    }
    let r = ElfRelocationSection::new(section_index, relocations);
    proof {
        let spec = spec_parse_relocations::<T>(section_index as int, secs);
        assert(r.deep_view().relocations =~= spec->Some_0.relocations);
    }
    Some(r)
}

} // verus!
