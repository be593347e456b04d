use vstd::prelude::*;

use super::enums::{DynamicTag, dynamic_tag_of};
use super::error::ElfError;
use super::raw::{DynamicFields, RawDynamic};
use super::section::{ElfSection, SectionModel};
use super::symbols::{lemma_table_entry_bounds, table_entry, table_len};

verus! {

/// The abstract content of an [`ElfDynamicEntry`].
pub struct DynamicEntryModel {
    pub tag: DynamicTag,
    pub value: u64,
}

/// The dynamic entry that the raw fields `f` describe.
pub open spec fn dynamic_entry_model(f: DynamicFields) -> DynamicEntryModel {
    DynamicEntryModel { tag: dynamic_tag_of(f.d_tag), value: f.d_un }
}

/// One entry of the dynamic section.
pub struct ElfDynamicEntry {
    tag: DynamicTag,
    value: u64,
}

impl DeepView for ElfDynamicEntry {
    type V = DynamicEntryModel;

    closed spec fn deep_view(&self) -> DynamicEntryModel {
        DynamicEntryModel { tag: self.tag, value: self.value }
    }
}

impl ElfDynamicEntry {
    pub(crate) fn from<T: RawDynamic>(raw: &T) -> (r: Self)
        ensures
            r.deep_view() == dynamic_entry_model(raw.fields()),
    {
        Self { tag: raw.tag(), value: raw.value() }
    }

    pub fn tag(&self) -> (r: DynamicTag)
        ensures
            r == self.deep_view().tag,
    {
        self.tag
    }

    pub fn value(&self) -> (r: u64)
        ensures
            r == self.deep_view().value,
    {
        self.value
    }
}

/// The abstract content of an [`ElfDynamicSection`].
pub struct DynamicSectionModel {
    pub section_index: usize,
    pub entries: Seq<DynamicEntryModel>,
}

/// The entries read from the dynamic section, up to its `DT_NULL` entry.
pub struct ElfDynamicSection {
    section_index: usize,
    entries: Vec<ElfDynamicEntry>,
}

impl DeepView for ElfDynamicSection {
    type V = DynamicSectionModel;

    closed spec fn deep_view(&self) -> DynamicSectionModel {
        DynamicSectionModel { section_index: self.section_index, entries: self.entries.deep_view() }
    }
}

impl ElfDynamicSection {
    pub fn new(section_index: usize, entries: Vec<ElfDynamicEntry>) -> (r: Self)
        ensures
            r.deep_view() == (DynamicSectionModel {
                section_index,
                entries: entries.deep_view(),
            }),
    {
        Self { section_index, entries }
    }

    pub fn entries(&self) -> (r: &[ElfDynamicEntry])
        ensures
            r.deep_view() == self.deep_view().entries,
    {
        self.entries.as_slice()
    }

    pub fn section_index(&self) -> (r: usize)
        ensures
            r == self.deep_view().section_index,
    {
        self.section_index
    }

    /// The section that the entries were read from, if `sections` has one at
    /// that index.
    pub fn section<'a>(&self, sections: &'a [ElfSection<'a>]) -> (r: Option<&'a ElfSection<'a>>)
        ensures
            r is Some <==> self.deep_view().section_index < sections@.len(),
            r matches Some(s) ==> *s == sections@[self.deep_view().section_index as int],
    {
        if self.section_index < sections.len() {
            Some(&sections[self.section_index])
        } else {
            None
        }
    }
}

/// The index of the first `DT_NULL` entry of `s` at or after `k`, or the
/// length of `s` when there is none.
pub open spec fn first_null_from(s: Seq<DynamicEntryModel>, k: int) -> int
    decreases s.len() - k,
{
    if k < 0 || k >= s.len() {
        s.len() as int
    } else if s[k].tag == DynamicTag::Null {
        k
    } else {
        first_null_from(s, k + 1)
    }
}

/// Every entry of the dynamic table in `data`, one per whole entry of
/// `entsize` bytes, decoded with layout `T`.
pub open spec fn dynamic_table<T: RawDynamic>(data: Seq<u8>, entsize: int) -> Seq<
    DynamicEntryModel,
> {
    Seq::new(
        table_len(data, entsize),
        |k: int| dynamic_entry_model(T::decode(table_entry(data, entsize, k))),
    )
}

/// The dynamic section that `parse_dynamic::<T>` reads from `section`,
/// found at `index`: its entries up to, and without, the first `DT_NULL`.
pub open spec fn spec_parse_dynamic<T: RawDynamic>(index: usize, section: SectionModel) -> Result<
    Option<DynamicSectionModel>,
    ElfError,
> {
    let entsize = section.header.entry_size as int;
    if entsize == 0 {
        Err(ElfError::InvalidEntrySize)
    } else if table_len(section.data, entsize) > 0 && entsize < T::encoded_size() {
        Err(ElfError::UnexpectedEOF)
    } else {
        let all = dynamic_table::<T>(section.data, entsize);
        Ok(
            Some(
                DynamicSectionModel {
                    section_index: index,
                    entries: all.take(first_null_from(all, 0)),
                },
            ),
        )
    }
}

/// Reads the dynamic section `section`, found at `section_index`, with
/// layout `T`; reading stops at the first `DT_NULL` entry.
pub fn parse_dynamic<'a, T>(section_index: usize, section: &ElfSection<'a>) -> (r: Result<
    Option<ElfDynamicSection>,
    ElfError,
>) where T: RawDynamic
    ensures
        super::header::result_view(r) == spec_parse_dynamic::<T>(
            section_index,
            section.deep_view(),
        ),
{
    let ghost sec = section.deep_view();
    let mut entries: Vec<ElfDynamicEntry> = Vec::new();
    let entsize = section.entry_size();

    if entsize == 0 {
        return Err(ElfError::InvalidEntrySize);
    }

    let section_data = section.data();
    let len = section_data.len() as u64;
    let count = len / entsize;
    let ghost all = dynamic_table::<T>(sec.data, entsize as int);
    let mut k: u64 = 0;
    while k < count
        invariant
            sec == section.deep_view(),
            sec.data == section_data@,
            entsize == sec.header.entry_size,
            entsize > 0,
            len == section_data@.len(),
            section_data@.len() <= usize::MAX,
            count == len / entsize,
            all == dynamic_table::<T>(sec.data, entsize as int),
            all.len() == count,
            k <= count,
            k > 0 ==> entsize >= T::encoded_size(),
            first_null_from(all, 0) == first_null_from(all, k as int),
            entries.deep_view() =~= all.take(k as int),
        ensures
            entries.deep_view() =~= all.take(first_null_from(all, 0)),
            count > 0 ==> entsize >= T::encoded_size(),
        decreases count - k,
    {
        proof {
            lemma_table_entry_bounds(len as int, entsize as int, k as int);
        }
        let start = k * entsize;
        let end = start + entsize;
        assert(start as int == (k as int) * (entsize as int));
        let chunk = &section_data[start as usize..end as usize];
        assert(chunk@ == table_entry(sec.data, entsize as int, k as int));
        let raw = match T::from_bytes(chunk) {
            Ok(raw) => raw,
            Err(e) => {
                return Err(e);
            },
        };

        let entry = ElfDynamicEntry::from(&raw);
        assert(entry.deep_view() == all[k as int]);

        if entry.tag() == DynamicTag::Null {
            break;
        }

        let ghost old_view = entries.deep_view();
        entries.push(entry);
        proof {
            assert(entries.deep_view() =~= old_view.push(entry.deep_view()));
            assert(all.take(k as int + 1) =~= all.take(k as int).push(all[k as int]));
        }
        k = k + 1;
    }

    Ok(Some(ElfDynamicSection::new(section_index, entries)))
}

} // verus!
