use vstd::prelude::*;

use crate::elf::enums::{
    ElfClass, Endianness, FileType, Machine, elf_class_of, endianness_of, file_type_of, machine_of,
};
use crate::elf::error::ElfError;
use super::bytes::{le16, le32, le64, read_u16, read_u32, read_u64};

verus! {

/// The fields of an ELF file header, widened to the 64-bit layout.
pub struct HeaderFields {
    pub e_ident: Seq<u8>,
    pub e_type: u16,
    pub e_machine: u16,
    pub e_version: u32,
    pub e_entry: u64,
    pub e_phoff: u64,
    pub e_shoff: u64,
    pub e_flags: u32,
    pub e_ehsize: u16,
    pub e_phentsize: u16,
    pub e_phnum: u16,
    pub e_shentsize: u16,
    pub e_shnum: u16,
    pub e_shstrndx: u32,
}

/// `Elf32_Ehdr`, the file header of a 32-bit image (52 bytes).
#[allow(non_camel_case_types)]
pub struct Elf32_Ehdr {
    pub e_ident: [u8; 16],
    pub e_type: u16,
    pub e_machine: u16,
    pub e_version: u32,
    pub e_entry: u32,
    pub e_phoff: u32,
    pub e_shoff: u32,
    pub e_flags: u32,
    pub e_ehsize: u16,
    pub e_phentsize: u16,
    pub e_phnum: u16,
    pub e_shentsize: u16,
    pub e_shnum: u16,
    pub e_shstrndx: u16,
}

/// `Elf64_Ehdr`, the file header of a 64-bit image (64 bytes).
#[allow(non_camel_case_types)]
pub struct Elf64_Ehdr {
    pub e_ident: [u8; 16],
    pub e_type: u16,
    pub e_machine: u16,
    pub e_version: u32,
    pub e_entry: u64,
    pub e_phoff: u64,
    pub e_shoff: u64,
    pub e_flags: u32,
    pub e_ehsize: u16,
    pub e_phentsize: u16,
    pub e_phnum: u16,
    pub e_shentsize: u16,
    pub e_shnum: u16,
    pub e_shstrndx: u16,
}

/// The identification bytes `e_ident`: the first sixteen bytes of the image.
fn read_ident(bytes: &[u8]) -> (r: [u8; 16])
    requires
        bytes@.len() >= 16,
    ensures
        r@ == bytes@.subrange(0, 16),
{
    let r = [
        bytes[0], bytes[1], bytes[2], bytes[3], bytes[4], bytes[5], bytes[6], bytes[7],
        bytes[8], bytes[9], bytes[10], bytes[11], bytes[12], bytes[13], bytes[14], bytes[15],
    ];
    assert(r@ =~= bytes@.subrange(0, 16));
    r
}

impl Elf32_Ehdr {
    /// Decodes the little-endian header at the start of `bytes`.
    pub fn from_bytes(bytes: &[u8]) -> (r: Result<Self, ElfError>)
        ensures
            bytes@.len() < 52 ==> r == Err::<Self, ElfError>(ElfError::UnexpectedEOF),
            bytes@.len() >= 52 ==> (r matches Ok(h) && h.fields() == Self::decode(bytes@)),
    {
        if bytes.len() < 52 {
            return Err(ElfError::UnexpectedEOF);
        }
        Ok(Elf32_Ehdr {
            e_ident: read_ident(bytes),
            e_type: read_u16(bytes, 16),
            e_machine: read_u16(bytes, 18),
            e_version: read_u32(bytes, 20),
            e_entry: read_u32(bytes, 24),
            e_phoff: read_u32(bytes, 28),
            e_shoff: read_u32(bytes, 32),
            e_flags: read_u32(bytes, 36),
            e_ehsize: read_u16(bytes, 40),
            e_phentsize: read_u16(bytes, 42),
            e_phnum: read_u16(bytes, 44),
            e_shentsize: read_u16(bytes, 46),
            e_shnum: read_u16(bytes, 48),
            e_shstrndx: read_u16(bytes, 50),
        })
    }
}

impl Elf64_Ehdr {
    /// Decodes the little-endian header at the start of `bytes`.
    pub fn from_bytes(bytes: &[u8]) -> (r: Result<Self, ElfError>)
        ensures
            bytes@.len() < 64 ==> r == Err::<Self, ElfError>(ElfError::UnexpectedEOF),
            bytes@.len() >= 64 ==> (r matches Ok(h) && h.fields() == Self::decode(bytes@)),
    {
        if bytes.len() < 64 {
            return Err(ElfError::UnexpectedEOF);
        }
        Ok(Elf64_Ehdr {
            e_ident: read_ident(bytes),
            e_type: read_u16(bytes, 16),
            e_machine: read_u16(bytes, 18),
            e_version: read_u32(bytes, 20),
            e_entry: read_u64(bytes, 24),
            e_phoff: read_u64(bytes, 32),
            e_shoff: read_u64(bytes, 40),
            e_flags: read_u32(bytes, 48),
            e_ehsize: read_u16(bytes, 52),
            e_phentsize: read_u16(bytes, 54),
            e_phnum: read_u16(bytes, 56),
            e_shentsize: read_u16(bytes, 58),
            e_shnum: read_u16(bytes, 60),
            e_shstrndx: read_u16(bytes, 62),
        })
    }
}

/// A file header of either word size, read through one interface.
pub trait RawElfHeader: Sized {
    /// The number of bytes that one encoded header occupies.
    spec fn encoded_size() -> nat;

    /// The fields that the first `encoded_size()` bytes of `b` encode.
    spec fn decode(b: Seq<u8>) -> HeaderFields;

    /// The fields that this header holds.
    spec fn fields(&self) -> HeaderFields;

    fn from_bytes(bytes: &[u8]) -> (r: Result<Self, ElfError>)
        ensures
            bytes@.len() < Self::encoded_size() ==> r == Err::<Self, ElfError>(
                ElfError::UnexpectedEOF,
            ),
            bytes@.len() >= Self::encoded_size() ==> (r matches Ok(h) && h.fields()
                == Self::decode(bytes@)),
    ;

    fn e_ident(&self) -> (r: [u8; 16])
        ensures
            r@ == self.fields().e_ident,
    ;

    fn e_type(&self) -> (r: u16)
        ensures
            r == self.fields().e_type,
    ;

    fn e_machine(&self) -> (r: u16)
        ensures
            r == self.fields().e_machine,
    ;

    fn e_version(&self) -> (r: u32)
        ensures
            r == self.fields().e_version,
    ;

    fn e_entry(&self) -> (r: u64)
        ensures
            r == self.fields().e_entry,
    ;

    fn e_phoff(&self) -> (r: u64)
        ensures
            r == self.fields().e_phoff,
    ;

    fn e_shoff(&self) -> (r: u64)
        ensures
            r == self.fields().e_shoff,
    ;

    fn e_flags(&self) -> (r: u32)
        ensures
            r == self.fields().e_flags,
    ;

    fn e_ehsize(&self) -> (r: u16)
        ensures
            r == self.fields().e_ehsize,
    ;

    fn e_phentsize(&self) -> (r: u16)
        ensures
            r == self.fields().e_phentsize,
    ;

    fn e_phnum(&self) -> (r: u16)
        ensures
            r == self.fields().e_phnum,
    ;

    fn e_shentsize(&self) -> (r: u16)
        ensures
            r == self.fields().e_shentsize,
    ;

    fn e_shnum(&self) -> (r: u16)
        ensures
            r == self.fields().e_shnum,
    ;

    fn e_shstrndx(&self) -> (r: u32)
        ensures
            r == self.fields().e_shstrndx,
    ;

    fn magic(&self) -> (r: [u8; 4])
        ensures
            r@ == self.fields().e_ident.subrange(0, 4),
    {
        let id = self.e_ident();
        let r = [id[0], id[1], id[2], id[3]];
        assert(r@ =~= self.fields().e_ident.subrange(0, 4));
        r
    }

    fn class(&self) -> (r: ElfClass)
        ensures
            r == elf_class_of(self.fields().e_ident[4]),
    {
        let id = self.e_ident();
        ElfClass::from_raw(id[4])
    }

    fn endianness(&self) -> (r: Endianness)
        ensures
            r == endianness_of(self.fields().e_ident[5]),
    {
        let id = self.e_ident();
        Endianness::from_raw(id[5])
    }

    fn file_type(&self) -> (r: FileType)
        ensures
            r == file_type_of(self.fields().e_type),
    {
        FileType::from_raw(self.e_type())
    }

    fn machine(&self) -> (r: Machine)
        ensures
            r == machine_of(self.fields().e_machine),
    {
        Machine::from_raw(self.e_machine())
    }

    fn version(&self) -> (r: u32)
        ensures
            r == self.fields().e_version,
    {
        self.e_version()
    }

    fn entry(&self) -> (r: u64)
        ensures
            r == self.fields().e_entry,
    {
        self.e_entry()
    }

    fn program_header_offset(&self) -> (r: u64)
        ensures
            r == self.fields().e_phoff,
    {
        self.e_phoff()
    }

    fn section_header_offset(&self) -> (r: u64)
        ensures
            r == self.fields().e_shoff,
    {
        self.e_shoff()
    }

    fn header_size(&self) -> (r: u16)
        ensures
            r == self.fields().e_ehsize,
    {
        self.e_ehsize()
    }

    fn program_header_size(&self) -> (r: u16)
        ensures
            r == self.fields().e_phentsize,
    {
        self.e_phentsize()
    }

    fn program_header_count(&self) -> (r: u16)
        ensures
            r == self.fields().e_phnum,
    {
        self.e_phnum()
    }

    fn section_header_size(&self) -> (r: u16)
        ensures
            r == self.fields().e_shentsize,
    {
        self.e_shentsize()
    }

    fn section_header_count(&self) -> (r: u16)
        ensures
            r == self.fields().e_shnum,
    {
        self.e_shnum()
    }

    fn section_name_table_index(&self) -> (r: u32)
        ensures
            r == self.fields().e_shstrndx,
    {
        self.e_shstrndx()
    }
}

impl RawElfHeader for Elf32_Ehdr {
    open spec fn encoded_size() -> nat {
        52
    }

    open spec fn decode(b: Seq<u8>) -> HeaderFields {
        HeaderFields {
            e_ident: b.subrange(0, 16),
            e_type: le16(b, 16),
            e_machine: le16(b, 18),
            e_version: le32(b, 20),
            e_entry: le32(b, 24) as u64,
            e_phoff: le32(b, 28) as u64,
            e_shoff: le32(b, 32) as u64,
            e_flags: le32(b, 36),
            e_ehsize: le16(b, 40),
            e_phentsize: le16(b, 42),
            e_phnum: le16(b, 44),
            e_shentsize: le16(b, 46),
            e_shnum: le16(b, 48),
            e_shstrndx: le16(b, 50) as u32,
        }
    }

    open spec fn fields(&self) -> HeaderFields {
        HeaderFields {
            e_ident: self.e_ident@,
            e_type: self.e_type,
            e_machine: self.e_machine,
            e_version: self.e_version,
            e_entry: self.e_entry as u64,
            e_phoff: self.e_phoff as u64,
            e_shoff: self.e_shoff as u64,
            e_flags: self.e_flags,
            e_ehsize: self.e_ehsize,
            e_phentsize: self.e_phentsize,
            e_phnum: self.e_phnum,
            e_shentsize: self.e_shentsize,
            e_shnum: self.e_shnum,
            e_shstrndx: self.e_shstrndx as u32,
        }
    }

    fn from_bytes(bytes: &[u8]) -> (r: Result<Self, ElfError>) {
        Elf32_Ehdr::from_bytes(bytes)
    }

    fn e_ident(&self) -> (r: [u8; 16]) {
        self.e_ident
    }

    fn e_type(&self) -> (r: u16) {
        self.e_type
    }

    fn e_machine(&self) -> (r: u16) {
        self.e_machine
    }

    fn e_version(&self) -> (r: u32) {
        self.e_version
    }

    fn e_entry(&self) -> (r: u64) {
        self.e_entry as u64
    }

    fn e_phoff(&self) -> (r: u64) {
        self.e_phoff as u64
    }

    fn e_shoff(&self) -> (r: u64) {
        self.e_shoff as u64
    }

    fn e_flags(&self) -> (r: u32) {
        self.e_flags
    }

    fn e_ehsize(&self) -> (r: u16) {
        self.e_ehsize
    }

    fn e_phentsize(&self) -> (r: u16) {
        self.e_phentsize
    }

    fn e_phnum(&self) -> (r: u16) {
        self.e_phnum
    }

    fn e_shentsize(&self) -> (r: u16) {
        self.e_shentsize
    }

    fn e_shnum(&self) -> (r: u16) {
        self.e_shnum
    }

    fn e_shstrndx(&self) -> (r: u32) {
        self.e_shstrndx as u32
    }
}

impl RawElfHeader for Elf64_Ehdr {
    open spec fn encoded_size() -> nat {
        64
    }

    open spec fn decode(b: Seq<u8>) -> HeaderFields {
        HeaderFields {
            e_ident: b.subrange(0, 16),
            e_type: le16(b, 16),
            e_machine: le16(b, 18),
            e_version: le32(b, 20),
            e_entry: le64(b, 24),
            e_phoff: le64(b, 32),
            e_shoff: le64(b, 40),
            e_flags: le32(b, 48),
            e_ehsize: le16(b, 52),
            e_phentsize: le16(b, 54),
            e_phnum: le16(b, 56),
            e_shentsize: le16(b, 58),
            e_shnum: le16(b, 60),
            e_shstrndx: le16(b, 62) as u32,
        }
    }

    open spec fn fields(&self) -> HeaderFields {
        HeaderFields {
            e_ident: self.e_ident@,
            e_type: self.e_type,
            e_machine: self.e_machine,
            e_version: self.e_version,
            e_entry: self.e_entry,
            e_phoff: self.e_phoff,
            e_shoff: self.e_shoff,
            e_flags: self.e_flags,
            e_ehsize: self.e_ehsize,
            e_phentsize: self.e_phentsize,
            e_phnum: self.e_phnum,
            e_shentsize: self.e_shentsize,
            e_shnum: self.e_shnum,
            e_shstrndx: self.e_shstrndx as u32,
        }
    }

    fn from_bytes(bytes: &[u8]) -> (r: Result<Self, ElfError>) {
        Elf64_Ehdr::from_bytes(bytes)
    }

    fn e_ident(&self) -> (r: [u8; 16]) {
        self.e_ident
    }

    fn e_type(&self) -> (r: u16) {
        self.e_type
    }

    fn e_machine(&self) -> (r: u16) {
        self.e_machine
    }

    fn e_version(&self) -> (r: u32) {
        self.e_version
    }

    fn e_entry(&self) -> (r: u64) {
        self.e_entry
    }

    fn e_phoff(&self) -> (r: u64) {
        self.e_phoff
    }

    fn e_shoff(&self) -> (r: u64) {
        self.e_shoff
    }

    fn e_flags(&self) -> (r: u32) {
        self.e_flags
    }

    fn e_ehsize(&self) -> (r: u16) {
        self.e_ehsize
    }

    fn e_phentsize(&self) -> (r: u16) {
        self.e_phentsize
    }

    fn e_phnum(&self) -> (r: u16) {
        self.e_phnum
    }

    fn e_shentsize(&self) -> (r: u16) {
        self.e_shentsize
    }

    fn e_shnum(&self) -> (r: u16) {
        self.e_shnum
    }

    fn e_shstrndx(&self) -> (r: u32) {
        self.e_shstrndx as u32
    }
}

} // verus!
