use vstd::prelude::*;

use super::enums::{SymbolBinding, SymbolType, symbol_binding_of, symbol_type_of};
use super::error::ElfError;
use super::raw::{RawSymbol, SymbolFields};
use super::section::{ElfSection, SectionModel};
use super::utility::{get_string, ok_of, spec_get_string};

verus! {

/// The abstract content of an [`ElfSymbol`].
pub struct SymbolModel {
    pub name: Option<Seq<char>>,
    pub value: u64,
    pub size: u64,
    pub binding: SymbolBinding,
    pub symbol_type: SymbolType,
    pub section_index: u32,
}

/// The symbol that the raw fields `f` describe, with name `name`: the
/// binding is the high nibble of `st_info`, the type its low nibble.
pub open spec fn symbol_model(f: SymbolFields, name: Option<Seq<char>>) -> SymbolModel {
    SymbolModel {
        name,
        value: f.st_value,
        size: f.st_size,
        binding: symbol_binding_of(f.st_info / 16),
        symbol_type: symbol_type_of(f.st_info % 16),
        section_index: f.st_shndx,
    }
}

/// A symbol table entry, in a form that does not depend on the word size.
pub struct ElfSymbol<'a> {
    name: Option<&'a str>,
    value: u64,
    size: u64,
    binding: SymbolBinding,
    symbol_type: SymbolType,
    section_index: u32,
}

impl<'a> DeepView for ElfSymbol<'a> {
    type V = SymbolModel;

    closed spec fn deep_view(&self) -> SymbolModel {
        SymbolModel {
            name: self.name.deep_view(),
            value: self.value,
            size: self.size,
            binding: self.binding,
            symbol_type: self.symbol_type,
            section_index: self.section_index,
        }
    }
}

impl<'a> ElfSymbol<'a> {
    pub(crate) fn from<T: RawSymbol>(raw: &T, name: Option<&'a str>) -> (r: Self)
        ensures
            r.deep_view() == symbol_model(raw.fields(), name.deep_view()),
    {
        let info = raw.info();
        assert(info >> 4u8 == info / 16 && info & 0xfu8 == info % 16) by (bit_vector);

        Self {
            name,
            value: raw.value(),
            size: raw.size(),
            binding: SymbolBinding::from_raw(info >> 4),
            symbol_type: SymbolType::from_raw(info & 0xf),
            section_index: raw.section_index(),
        }
    }

    pub fn name(&self) -> (r: Option<&'a str>)
        ensures
            r.deep_view() == self.deep_view().name,
    {
        self.name
    }

    pub fn value(&self) -> (r: u64)
        ensures
            r == self.deep_view().value,
    {
        self.value
    }

    pub fn size(&self) -> (r: u64)
        ensures
            r == self.deep_view().size,
    {
        self.size
    }

    pub fn binding(&self) -> (r: SymbolBinding)
        ensures
            r == self.deep_view().binding,
    {
        self.binding
    }

    pub fn symbol_type(&self) -> (r: SymbolType)
        ensures
            r == self.deep_view().symbol_type,
    {
        self.symbol_type
    }

    pub fn section_index(&self) -> (r: u32)
        ensures
            r == self.deep_view().section_index,
    {
        self.section_index
    }
}

/// The `k`-th fixed-size entry of a table whose entries are `entsize` bytes.
pub open spec fn table_entry(data: Seq<u8>, entsize: int, k: int) -> Seq<u8> {
    data.subrange(k * entsize, k * entsize + entsize)
}

/// The number of whole entries of `entsize` bytes in `data`.
pub open spec fn table_len(data: Seq<u8>, entsize: int) -> nat {
    ((data.len() as int) / entsize) as nat
}

/// The `k`-th symbol of the table `section`, named through the string
/// table `strtab`; a name that cannot be read is left out.
pub open spec fn symbol_at<T: RawSymbol>(section: SectionModel, strtab: Seq<u8>, k: int) -> SymbolModel {
    let f = T::decode(table_entry(section.data, section.header.entry_size as int, k));
    symbol_model(f, ok_of(spec_get_string(strtab, f.st_name)))
}

/// The symbols that `parse_symbols::<T>` reads from the symbol table at
/// `index` of `sections`: one per whole entry of `sh_entsize` bytes, each
/// named through the string table that `sh_link` names.
pub open spec fn spec_parse_symbols<T: RawSymbol>(index: int, sections: Seq<SectionModel>) -> Result<
    Seq<SymbolModel>,
    ElfError,
> {
    if index < 0 || index >= sections.len() {
        Err(ElfError::InvalidSectionIndex)
    } else {
        let section = sections[index];
        let link = section.header.link;
        let entsize = section.header.entry_size as int;
        if link >= sections.len() {
            Err(ElfError::InvalidSectionIndex)
        } else if entsize == 0 {
            Err(ElfError::InvalidEntrySize)
        } else if table_len(section.data, entsize) > 0 && entsize < T::encoded_size() {
            Err(ElfError::UnexpectedEOF)
        } else {
            Ok(
                Seq::new(
                    table_len(section.data, entsize),
                    |k: int| symbol_at::<T>(section, sections[link as int].data, k),
                ),
            )
        }
    }
}

/// Where the `k`-th entry of a table of `n` entries of `entsize` bytes
/// starts and ends, and that it lies inside the table.
pub proof fn lemma_table_entry_bounds(len: int, entsize: int, k: int)
    requires
        entsize > 0,
        0 <= len,
        0 <= k < len / entsize,
    ensures
        0 <= k * entsize,
        k * entsize + entsize <= len,
{
    assert(k * entsize + entsize <= len) by (nonlinear_arith)
        requires
            entsize > 0,
            0 <= len,
            0 <= k < len / entsize,
    ;
    assert(0 <= k * entsize) by (nonlinear_arith)
        requires
            entsize > 0,
            0 <= k,
    ;
}

/// Reads the symbol table at `section_index` of `sections`, with layout `T`.
pub fn parse_symbols<'a, T>(section_index: usize, sections: &[ElfSection<'a>]) -> (r: Result<
    Vec<ElfSymbol<'a>>,
    ElfError,
>) where T: RawSymbol
    ensures
        super::header::result_view(r) == spec_parse_symbols::<T>(
            section_index as int,
            sections.deep_view(),
        ),
{
    let ghost secs = sections.deep_view();
    let mut symbols: Vec<ElfSymbol<'a>> = Vec::new();

    if section_index >= sections.len() {
        return Err(ElfError::InvalidSectionIndex);
    }
    let section = &sections[section_index];
    let link = section.link() as usize;
    if link >= sections.len() {
        return Err(ElfError::InvalidSectionIndex);
    }
    let string_table = &sections[link];
    let strtab_data = string_table.data();

    let section_data = section.data();
    let entsize = section.entry_size();

    if entsize == 0 {
        return Err(ElfError::InvalidEntrySize);
    }

    let len = section_data.len() as u64;
    let count = len / entsize;
    let ghost sec = secs[section_index as int];
    let ghost strtab = secs[link as int].data;
    assert(sec.data == section_data@);
    assert(strtab == strtab_data@);
    let mut k: u64 = 0;
    assert(symbols.deep_view() =~= Seq::<super::symbols::SymbolModel>::empty());
    while k < count
        invariant
            secs == sections.deep_view(),
            section_index < secs.len(),
            link < secs.len(),
            sec == secs[section_index as int],
            strtab == secs[link as int].data,
            sec.header.link == link,
            sec.data == section_data@,
            strtab == strtab_data@,
            entsize == sec.header.entry_size,
            entsize > 0,
            len == section_data@.len(),
            section_data@.len() <= usize::MAX,
            count == len / entsize,
            k <= count,
            k > 0 ==> entsize >= T::encoded_size(),
            symbols@.len() == k,
            forall|j: int|
                0 <= j < k ==> (#[trigger] symbols.deep_view()[j]) == symbol_at::<T>(
                    sec,
                    strtab,
                    j,
                ),
        decreases count - k,
    {
        proof {
            lemma_table_entry_bounds(len as int, entsize as int, k as int);
        }
        let start = k * entsize;
        let end = start + entsize;
        assert(start as int == (k as int) * (entsize as int));
        assert(end <= len);
        let chunk = &section_data[start as usize..end as usize];
        assert(chunk@ == table_entry(sec.data, entsize as int, k as int));
        let raw = match T::from_bytes(chunk) {
            Ok(raw) => raw,
            Err(e) => {
                return Err(e);
            },
        };

        let name = match get_string(strtab_data, raw.name_offset()) {
            Ok(s) => Some(s),
            Err(_) => None,
        };

        let symbol = ElfSymbol::from(&raw, name);
        let ghost old_view = symbols.deep_view();
        symbols.push(symbol);
        proof {
            assert(symbols.deep_view() =~= old_view.push(symbol.deep_view()));
        }
        k = k + 1;
    }
    proof {
        let spec = spec_parse_symbols::<T>(section_index as int, secs);
        assert(symbols.deep_view() =~= spec->Ok_0);
    }
    Ok(symbols)
}

} // verus!
