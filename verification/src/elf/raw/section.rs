use vstd::prelude::*;

use crate::elf::enums::{SectionFlags, SectionType, section_type_of};
use crate::elf::error::ElfError;
use super::bytes::{le32, le64, read_u32, read_u64};

verus! {

/// The fields of a section header, widened to the 64-bit layout.
pub struct SectionHeaderFields {
    pub sh_name: u32,
    pub sh_type: u32,
    pub sh_flags: u64,
    pub sh_addr: u64,
    pub sh_offset: u64,
    pub sh_size: u64,
    pub sh_link: u32,
    pub sh_info: u32,
    pub sh_addralign: u64,
    pub sh_entsize: u64,
}

/// `Elf32_Shdr` (40 bytes).
#[allow(non_camel_case_types)]
pub struct Elf32_Shdr {
    pub sh_name: u32,
    pub sh_type: u32,
    pub sh_flags: u32,
    pub sh_addr: u32,
    pub sh_offset: u32,
    pub sh_size: u32,
    pub sh_link: u32,
    pub sh_info: u32,
    pub sh_addralign: u32,
    pub sh_entsize: u32,
}

/// `Elf64_Shdr` (64 bytes).
#[allow(non_camel_case_types)]
pub struct Elf64_Shdr {
    pub sh_name: u32,
    pub sh_type: u32,
    pub sh_flags: u64,
    pub sh_addr: u64,
    pub sh_offset: u64,
    pub sh_size: u64,
    pub sh_link: u32,
    pub sh_info: u32,
    pub sh_addralign: u64,
    pub sh_entsize: u64,
}

impl Elf32_Shdr {
    /// Decodes the little-endian section header at the start of `bytes`.
    pub fn from_bytes(bytes: &[u8]) -> (r: Result<Self, ElfError>)
        ensures
            bytes@.len() < 40 ==> r == Err::<Self, ElfError>(ElfError::UnexpectedEOF),
            bytes@.len() >= 40 ==> (r matches Ok(h) && h.fields() == Self::decode(bytes@)),
    {
        if bytes.len() < 40 {
            return Err(ElfError::UnexpectedEOF);
        }
        Ok(Elf32_Shdr {
            sh_name: read_u32(bytes, 0),
            sh_type: read_u32(bytes, 4),
            sh_flags: read_u32(bytes, 8),
            sh_addr: read_u32(bytes, 12),
            sh_offset: read_u32(bytes, 16),
            sh_size: read_u32(bytes, 20),
            sh_link: read_u32(bytes, 24),
            sh_info: read_u32(bytes, 28),
            sh_addralign: read_u32(bytes, 32),
            sh_entsize: read_u32(bytes, 36),
        })
    }
}

impl Elf64_Shdr {
    /// Decodes the little-endian section header at the start of `bytes`.
    pub fn from_bytes(bytes: &[u8]) -> (r: Result<Self, ElfError>)
        ensures
            bytes@.len() < 64 ==> r == Err::<Self, ElfError>(ElfError::UnexpectedEOF),
            bytes@.len() >= 64 ==> (r matches Ok(h) && h.fields() == Self::decode(bytes@)),
    {
        if bytes.len() < 64 {
            return Err(ElfError::UnexpectedEOF);
        }
        Ok(Elf64_Shdr {
            sh_name: read_u32(bytes, 0),
            sh_type: read_u32(bytes, 4),
            sh_flags: read_u64(bytes, 8),
            sh_addr: read_u64(bytes, 16),
            sh_offset: read_u64(bytes, 24),
            sh_size: read_u64(bytes, 32),
            sh_link: read_u32(bytes, 40),
            sh_info: read_u32(bytes, 44),
            sh_addralign: read_u64(bytes, 48),
            sh_entsize: read_u64(bytes, 56),
        })
    }
}

/// A section header of either word size, read through one interface.
pub trait RawSectionHeader: Sized {
    /// The number of bytes that one encoded section header occupies.
    spec fn encoded_size() -> nat;

    /// The fields that the first `encoded_size()` bytes of `b` encode.
    spec fn decode(b: Seq<u8>) -> SectionHeaderFields;

    /// The fields that this header holds.
    spec fn fields(&self) -> SectionHeaderFields;

    fn from_bytes(bytes: &[u8]) -> (r: Result<Self, ElfError>)
        ensures
            bytes@.len() < Self::encoded_size() ==> r == Err::<Self, ElfError>(
                ElfError::UnexpectedEOF,
            ),
            bytes@.len() >= Self::encoded_size() ==> (r matches Ok(h) && h.fields()
                == Self::decode(bytes@)),
    ;

    fn name_offset(&self) -> (r: u32)
        ensures
            r == self.fields().sh_name,
    ;

    fn section_type(&self) -> (r: SectionType)
        ensures
            r == section_type_of(self.fields().sh_type),
    ;

    fn flags(&self) -> (r: SectionFlags)
        ensures
            r.spec_bits() == self.fields().sh_flags & 0x7f7,
    ;

    fn virtual_address(&self) -> (r: u64)
        ensures
            r == self.fields().sh_addr,
    ;

    fn file_offset(&self) -> (r: u64)
        ensures
            r == self.fields().sh_offset,
    ;

    fn size(&self) -> (r: u64)
        ensures
            r == self.fields().sh_size,
    ;

    fn link(&self) -> (r: u32)
        ensures
            r == self.fields().sh_link,
    ;

    fn info(&self) -> (r: u32)
        ensures
            r == self.fields().sh_info,
    ;

    fn alignment(&self) -> (r: u64)
        ensures
            r == self.fields().sh_addralign,
    ;

    fn entry_size(&self) -> (r: u64)
        ensures
            r == self.fields().sh_entsize,
    ;
}

impl RawSectionHeader for Elf32_Shdr {
    open spec fn encoded_size() -> nat {
        40
    }

    open spec fn decode(b: Seq<u8>) -> SectionHeaderFields {
        SectionHeaderFields {
            sh_name: le32(b, 0),
            sh_type: le32(b, 4),
            sh_flags: le32(b, 8) as u64,
            sh_addr: le32(b, 12) as u64,
            sh_offset: le32(b, 16) as u64,
            sh_size: le32(b, 20) as u64,
            sh_link: le32(b, 24),
            sh_info: le32(b, 28),
            sh_addralign: le32(b, 32) as u64,
            sh_entsize: le32(b, 36) as u64,
        }
    }

    open spec fn fields(&self) -> SectionHeaderFields {
        SectionHeaderFields {
            sh_name: self.sh_name,
            sh_type: self.sh_type,
            sh_flags: self.sh_flags as u64,
            sh_addr: self.sh_addr as u64,
            sh_offset: self.sh_offset as u64,
            sh_size: self.sh_size as u64,
            sh_link: self.sh_link,
            sh_info: self.sh_info,
            sh_addralign: self.sh_addralign as u64,
            sh_entsize: self.sh_entsize as u64,
        }
    }

    fn from_bytes(bytes: &[u8]) -> (r: Result<Self, ElfError>) {
        Elf32_Shdr::from_bytes(bytes)
    }

    fn name_offset(&self) -> (r: u32) {
        self.sh_name
    }

    fn section_type(&self) -> (r: SectionType) {
        SectionType::from_raw(self.sh_type)
    }

    fn flags(&self) -> (r: SectionFlags) {
        SectionFlags::from_bits_truncate(self.sh_flags as u64)
    }

    fn virtual_address(&self) -> (r: u64) {
        self.sh_addr as u64
    }

    fn file_offset(&self) -> (r: u64) {
        self.sh_offset as u64
    }

    fn size(&self) -> (r: u64) {
        self.sh_size as u64
    }

    fn link(&self) -> (r: u32) {
        self.sh_link
    }

    fn info(&self) -> (r: u32) {
        self.sh_info
    }

    fn alignment(&self) -> (r: u64) {
        self.sh_addralign as u64
    }

    fn entry_size(&self) -> (r: u64) {
        self.sh_entsize as u64
    }
}

impl RawSectionHeader for Elf64_Shdr {
    open spec fn encoded_size() -> nat {
        64
    }

    open spec fn decode(b: Seq<u8>) -> SectionHeaderFields {
        SectionHeaderFields {
            sh_name: le32(b, 0),
            sh_type: le32(b, 4),
            sh_flags: le64(b, 8),
            sh_addr: le64(b, 16),
            sh_offset: le64(b, 24),
            sh_size: le64(b, 32),
            sh_link: le32(b, 40),
            sh_info: le32(b, 44),
            sh_addralign: le64(b, 48),
            sh_entsize: le64(b, 56),
        }
    }

    open spec fn fields(&self) -> SectionHeaderFields {
        SectionHeaderFields {
            sh_name: self.sh_name,
            sh_type: self.sh_type,
            sh_flags: self.sh_flags,
            sh_addr: self.sh_addr,
            sh_offset: self.sh_offset,
            sh_size: self.sh_size,
            sh_link: self.sh_link,
            sh_info: self.sh_info,
            sh_addralign: self.sh_addralign,
            sh_entsize: self.sh_entsize,
        }
    }

    fn from_bytes(bytes: &[u8]) -> (r: Result<Self, ElfError>) {
        Elf64_Shdr::from_bytes(bytes)
    }

    fn name_offset(&self) -> (r: u32) {
        self.sh_name
    }

    fn section_type(&self) -> (r: SectionType) {
        SectionType::from_raw(self.sh_type)
    }

    fn flags(&self) -> (r: SectionFlags) {
        SectionFlags::from_bits_truncate(self.sh_flags)
    }

    fn virtual_address(&self) -> (r: u64) {
        self.sh_addr
    }

    fn file_offset(&self) -> (r: u64) {
        self.sh_offset
    }

    fn size(&self) -> (r: u64) {
        self.sh_size
    }

    fn link(&self) -> (r: u32) {
        self.sh_link
    }

    fn info(&self) -> (r: u32) {
        self.sh_info
    }

    fn alignment(&self) -> (r: u64) {
        self.sh_addralign
    }

    fn entry_size(&self) -> (r: u64) {
        self.sh_entsize
    }
}

} // verus!
