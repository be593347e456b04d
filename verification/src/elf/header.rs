use vstd::prelude::*;

use super::enums::{
    ElfClass, Endianness, FileType, Machine, elf_class_of, endianness_of, file_type_of, machine_of,
};
use super::error::ElfError;
use super::raw::{Elf32_Ehdr, Elf64_Ehdr, HeaderFields, RawElfHeader};

verus! {

/// What a `Result` holds, with the success value taken by its deep view.
pub open spec fn result_view<A: DeepView>(r: Result<A, ElfError>) -> Result<A::V, ElfError> {
    match r {
        Ok(a) => Ok(a.deep_view()),
        Err(e) => Err(e),
    }
}

/// The abstract content of an [`ElfHeader`].
pub struct HeaderModel {
    pub magic: Seq<u8>,
    pub class: ElfClass,
    pub endianness: Endianness,
    pub file_type: FileType,
    pub machine: Machine,
    pub version: u32,
    pub entry: u64,
    pub program_header_offset: u64,
    pub section_header_offset: u64,
    pub header_size: u16,
    pub program_header_size: u16,
    pub program_header_count: u16,
    pub section_header_size: u16,
    pub section_header_count: u16,
    pub section_name_table_index: u32,
}

/// The header that the raw fields `f` describe.
pub open spec fn header_model(f: HeaderFields) -> HeaderModel {
    HeaderModel {
        magic: f.e_ident.subrange(0, 4),
        class: elf_class_of(f.e_ident[4]),
        endianness: endianness_of(f.e_ident[5]),
        file_type: file_type_of(f.e_type),
        machine: machine_of(f.e_machine),
        version: f.e_version,
        entry: f.e_entry,
        program_header_offset: f.e_phoff,
        section_header_offset: f.e_shoff,
        header_size: f.e_ehsize,
        program_header_size: f.e_phentsize,
        program_header_count: f.e_phnum,
        section_header_size: f.e_shentsize,
        section_header_count: f.e_shnum,
        section_name_table_index: f.e_shstrndx,
    }
}

/// The header that `parse_header::<T>` reads from `b`.
pub open spec fn spec_parse_header<T: RawElfHeader>(b: Seq<u8>) -> Result<HeaderModel, ElfError> {
    if b.len() < T::encoded_size() {
        Err(ElfError::UnexpectedEOF)
    } else {
        Ok(header_model(T::decode(b)))
    }
}

/// The ELF file header, in a form that does not depend on the word size.
pub struct ElfHeader {
    magic: [u8; 4],
    class: ElfClass,
    endianness: Endianness,
    file_type: FileType,
    machine: Machine,
    version: u32,
    entry: u64,
    program_header_offset: u64,
    section_header_offset: u64,
    header_size: u16,
    program_header_size: u16,
    program_header_count: u16,
    section_header_size: u16,
    section_header_count: u16,
    section_name_table_index: u32,
}

impl DeepView for ElfHeader {
    type V = HeaderModel;

    closed spec fn deep_view(&self) -> HeaderModel {
        HeaderModel {
            magic: self.magic@,
            class: self.class,
            endianness: self.endianness,
            file_type: self.file_type,
            machine: self.machine,
            version: self.version,
            entry: self.entry,
            program_header_offset: self.program_header_offset,
            section_header_offset: self.section_header_offset,
            header_size: self.header_size,
            program_header_size: self.program_header_size,
            program_header_count: self.program_header_count,
            section_header_size: self.section_header_size,
            section_header_count: self.section_header_count,
            section_name_table_index: self.section_name_table_index,
        }
    }
}

impl ElfHeader {
    pub(crate) fn from<T: RawElfHeader>(raw: &T) -> (r: Self)
        ensures
            r.deep_view() == header_model(raw.fields()),
    {
        let r = Self {
            magic: raw.magic(),
            class: raw.class(),
            endianness: raw.endianness(),
            file_type: raw.file_type(),
            machine: raw.machine(),
            version: raw.version(),
            entry: raw.entry(),
            program_header_offset: raw.program_header_offset(),
            section_header_offset: raw.section_header_offset(),
            header_size: raw.header_size(),
            program_header_size: raw.program_header_size(),
            program_header_count: raw.program_header_count(),
            section_header_size: raw.section_header_size(),
            section_header_count: raw.section_header_count(),
            section_name_table_index: raw.section_name_table_index(),
        };
        assert(r.deep_view() =~= header_model(raw.fields()));
        r
    }

    pub(crate) fn from_32(raw: &Elf32_Ehdr) -> (r: Self)
        ensures
            r.deep_view() == header_model(raw.fields()),
    {
        let r = Self {
            magic: [raw.e_ident[0], raw.e_ident[1], raw.e_ident[2], raw.e_ident[3]],
            class: ElfClass::from_raw(raw.e_ident[4]),
            endianness: Endianness::from_raw(raw.e_ident[5]),
            file_type: FileType::from_raw(raw.e_type),
            machine: Machine::from_raw(raw.e_machine),
            version: raw.e_version,
            entry: raw.e_entry as u64,
            program_header_offset: raw.e_phoff as u64,
            section_header_offset: raw.e_shoff as u64,
            header_size: raw.e_ehsize,
            program_header_size: raw.e_phentsize,
            program_header_count: raw.e_phnum,
            section_header_size: raw.e_shentsize,
            section_header_count: raw.e_shnum,
            section_name_table_index: raw.e_shstrndx as u32,
        };
        assert(r.magic@ =~= raw.fields().e_ident.subrange(0, 4));
        r
    }

    pub(crate) fn from_64(raw: &Elf64_Ehdr) -> (r: Self)
        ensures
            r.deep_view() == header_model(raw.fields()),
    {
        let r = Self {
            magic: [raw.e_ident[0], raw.e_ident[1], raw.e_ident[2], raw.e_ident[3]],
            class: ElfClass::from_raw(raw.e_ident[4]),
            endianness: Endianness::from_raw(raw.e_ident[5]),
            file_type: FileType::from_raw(raw.e_type),
            machine: Machine::from_raw(raw.e_machine),
            version: raw.e_version,
            entry: raw.e_entry,
            program_header_offset: raw.e_phoff,
            section_header_offset: raw.e_shoff,
            header_size: raw.e_ehsize,
            program_header_size: raw.e_phentsize,
            program_header_count: raw.e_phnum,
            section_header_size: raw.e_shentsize,
            section_header_count: raw.e_shnum,
            section_name_table_index: raw.e_shstrndx as u32,
        };
        assert(r.magic@ =~= raw.fields().e_ident.subrange(0, 4));
        r
    }

    pub fn magic(&self) -> (r: [u8; 4])
        ensures
            r@ == self.deep_view().magic,
    {
        self.magic
    }

    pub fn class(&self) -> (r: ElfClass)
        ensures
            r == self.deep_view().class,
    {
        self.class
    }

    pub fn endianness(&self) -> (r: Endianness)
        ensures
            r == self.deep_view().endianness,
    {
        self.endianness
    }

    pub fn file_type(&self) -> (r: FileType)
        ensures
            r == self.deep_view().file_type,
    {
        self.file_type
    }

    pub fn machine(&self) -> (r: Machine)
        ensures
            r == self.deep_view().machine,
    {
        self.machine
    }

    pub fn version(&self) -> (r: u32)
        ensures
            r == self.deep_view().version,
    {
        self.version
    }

    pub fn entry(&self) -> (r: u64)
        ensures
            r == self.deep_view().entry,
    {
        self.entry
    }

    pub fn program_header_offset(&self) -> (r: u64)
        ensures
            r == self.deep_view().program_header_offset,
    {
        self.program_header_offset
    }

    pub fn section_header_offset(&self) -> (r: u64)
        ensures
            r == self.deep_view().section_header_offset,
    {
        self.section_header_offset
    }

    pub fn header_size(&self) -> (r: u16)
        ensures
            r == self.deep_view().header_size,
    {
        self.header_size
    }

    pub fn program_header_size(&self) -> (r: u16)
        ensures
            r == self.deep_view().program_header_size,
    {
        self.program_header_size
    }

    pub fn program_header_count(&self) -> (r: u16)
        ensures
            r == self.deep_view().program_header_count,
    {
        self.program_header_count
    }

    pub fn section_header_size(&self) -> (r: u16)
        ensures
            r == self.deep_view().section_header_size,
    {
        self.section_header_size
    }

    pub fn section_header_count(&self) -> (r: u16)
        ensures
            r == self.deep_view().section_header_count,
    {
        self.section_header_count
    }

    pub fn section_name_table_index(&self) -> (r: u32)
        ensures
            r == self.deep_view().section_name_table_index,
    {
        self.section_name_table_index
    }
}

/// Reads the file header of layout `T` at the start of `bytes`.
pub fn parse_header<T>(bytes: &[u8]) -> (r: Result<ElfHeader, ElfError>) where T: RawElfHeader
    ensures
        result_view(r) == spec_parse_header::<T>(bytes@),
{
    let raw = match T::from_bytes(bytes) {
        Ok(value) => value,
        Err(e) => return Err(e),
    };

    Ok(ElfHeader::from(&raw))
}

} // verus!
