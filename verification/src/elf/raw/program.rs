use vstd::prelude::*;

use crate::elf::enums::{SegmentFlags, SegmentType, segment_type_of};
use crate::elf::error::ElfError;
use super::bytes::{le32, le64, read_u32, read_u64};

verus! {

/// The fields of a program header, widened to the 64-bit layout.
pub struct ProgramHeaderFields {
    pub p_type: u32,
    pub p_offset: u64,
    pub p_vaddr: u64,
    pub p_paddr: u64,
    pub p_filesz: u64,
    pub p_memsz: u64,
    pub p_flags: u32,
    pub p_align: u64,
}

/// `Elf32_Phdr` (32 bytes).
#[allow(non_camel_case_types)]
pub struct Elf32_Phdr {
    pub p_type: u32,
    pub p_offset: u32,
    pub p_vaddr: u32,
    pub p_paddr: u32,
    pub p_filesz: u32,
    pub p_memsz: u32,
    pub p_flags: u32,
    pub p_align: u32,
}

/// `Elf64_Phdr` (56 bytes).
#[allow(non_camel_case_types)]
pub struct Elf64_Phdr {
    pub p_type: u32,
    pub p_flags: u32,
    pub p_offset: u64,
    pub p_vaddr: u64,
    pub p_paddr: u64,
    pub p_filesz: u64,
    pub p_memsz: u64,
    pub p_align: u64,
}

impl Elf32_Phdr {
    /// Decodes the little-endian program header at the start of `bytes`.
    pub fn from_bytes(bytes: &[u8]) -> (r: Result<Self, ElfError>)
        ensures
            bytes@.len() < 32 ==> r == Err::<Self, ElfError>(ElfError::UnexpectedEOF),
            bytes@.len() >= 32 ==> (r matches Ok(h) && h.fields() == Self::decode(bytes@)),
    {
        if bytes.len() < 32 {
            return Err(ElfError::UnexpectedEOF);
        }
        Ok(Elf32_Phdr {
            p_type: read_u32(bytes, 0),
            p_offset: read_u32(bytes, 4),
            p_vaddr: read_u32(bytes, 8),
            p_paddr: read_u32(bytes, 12),
            p_filesz: read_u32(bytes, 16),
            p_memsz: read_u32(bytes, 20),
            p_flags: read_u32(bytes, 24),
            p_align: read_u32(bytes, 28),
        })
    }
}

impl Elf64_Phdr {
    /// Decodes the little-endian program header at the start of `bytes`.
    pub fn from_bytes(bytes: &[u8]) -> (r: Result<Self, ElfError>)
        ensures
            bytes@.len() < 56 ==> r == Err::<Self, ElfError>(ElfError::UnexpectedEOF),
            bytes@.len() >= 56 ==> (r matches Ok(h) && h.fields() == Self::decode(bytes@)),
    {
        if bytes.len() < 56 {
            return Err(ElfError::UnexpectedEOF);
        }
        Ok(Elf64_Phdr {
            p_type: read_u32(bytes, 0),
            p_flags: read_u32(bytes, 4),
            p_offset: read_u64(bytes, 8),
            p_vaddr: read_u64(bytes, 16),
            p_paddr: read_u64(bytes, 24),
            p_filesz: read_u64(bytes, 32),
            p_memsz: read_u64(bytes, 40),
            p_align: read_u64(bytes, 48),
        })
    }
}

/// A program header of either word size, read through one interface.
pub trait RawProgramHeader: Sized {
    /// The number of bytes that one encoded program header occupies.
    spec fn encoded_size() -> nat;

    /// The fields that the first `encoded_size()` bytes of `b` encode.
    spec fn decode(b: Seq<u8>) -> ProgramHeaderFields;

    /// The fields that this header holds.
    spec fn fields(&self) -> ProgramHeaderFields;

    fn from_bytes(bytes: &[u8]) -> (r: Result<Self, ElfError>)
        ensures
            bytes@.len() < Self::encoded_size() ==> r == Err::<Self, ElfError>(
                ElfError::UnexpectedEOF,
            ),
            bytes@.len() >= Self::encoded_size() ==> (r matches Ok(h) && h.fields()
                == Self::decode(bytes@)),
    ;

    fn p_type(&self) -> (r: u32)
        ensures
            r == self.fields().p_type,
    ;

    fn p_offset(&self) -> (r: u64)
        ensures
            r == self.fields().p_offset,
    ;

    fn p_vaddr(&self) -> (r: u64)
        ensures
            r == self.fields().p_vaddr,
    ;

    fn p_paddr(&self) -> (r: u64)
        ensures
            r == self.fields().p_paddr,
    ;

    fn p_filesz(&self) -> (r: u64)
        ensures
            r == self.fields().p_filesz,
    ;

    fn p_memsz(&self) -> (r: u64)
        ensures
            r == self.fields().p_memsz,
    ;

    fn p_flags(&self) -> (r: u32)
        ensures
            r == self.fields().p_flags,
    ;

    fn p_align(&self) -> (r: u64)
        ensures
            r == self.fields().p_align,
    ;

    fn segment_type(&self) -> (r: SegmentType)
        ensures
            r == segment_type_of(self.fields().p_type),
    {
        SegmentType::from_raw(self.p_type())
    }

    fn file_offset(&self) -> (r: u64)
        ensures
            r == self.fields().p_offset,
    {
        self.p_offset()
    }

    fn virtual_address(&self) -> (r: u64)
        ensures
            r == self.fields().p_vaddr,
    {
        self.p_vaddr()
    }

    fn physical_address(&self) -> (r: u64)
        ensures
            r == self.fields().p_paddr,
    {
        self.p_paddr()
    }

    fn file_size(&self) -> (r: u64)
        ensures
            r == self.fields().p_filesz,
    {
        self.p_filesz()
    }

    fn memory_size(&self) -> (r: u64)
        ensures
            r == self.fields().p_memsz,
    {
        self.p_memsz()
    }

    fn flags(&self) -> (r: SegmentFlags)
        ensures
            r == SegmentFlags(self.fields().p_flags),
    {
        SegmentFlags(self.p_flags())
    }

    fn alignment(&self) -> (r: u64)
        ensures
            r == self.fields().p_align,
    {
        self.p_align()
    }
}

impl RawProgramHeader for Elf32_Phdr {
    open spec fn encoded_size() -> nat {
        32
    }

    open spec fn decode(b: Seq<u8>) -> ProgramHeaderFields {
        ProgramHeaderFields {
            p_type: le32(b, 0),
            p_offset: le32(b, 4) as u64,
            p_vaddr: le32(b, 8) as u64,
            p_paddr: le32(b, 12) as u64,
            p_filesz: le32(b, 16) as u64,
            p_memsz: le32(b, 20) as u64,
            p_flags: le32(b, 24),
            p_align: le32(b, 28) as u64,
        }
    }

    open spec fn fields(&self) -> ProgramHeaderFields {
        ProgramHeaderFields {
            p_type: self.p_type,
            p_offset: self.p_offset as u64,
            p_vaddr: self.p_vaddr as u64,
            p_paddr: self.p_paddr as u64,
            p_filesz: self.p_filesz as u64,
            p_memsz: self.p_memsz as u64,
            p_flags: self.p_flags,
            p_align: self.p_align as u64,
        }
    }

    fn from_bytes(bytes: &[u8]) -> (r: Result<Self, ElfError>) {
        Elf32_Phdr::from_bytes(bytes)
    }

    fn p_type(&self) -> (r: u32) {
        self.p_type
    }

    fn p_offset(&self) -> (r: u64) {
        self.p_offset as u64
    }

    fn p_vaddr(&self) -> (r: u64) {
        self.p_vaddr as u64
    }

    fn p_paddr(&self) -> (r: u64) {
        self.p_paddr as u64
    }

    fn p_filesz(&self) -> (r: u64) {
        self.p_filesz as u64
    }

    fn p_memsz(&self) -> (r: u64) {
        self.p_memsz as u64
    }

    fn p_flags(&self) -> (r: u32) {
        self.p_flags
    }

    fn p_align(&self) -> (r: u64) {
        self.p_align as u64
    }
}

impl RawProgramHeader for Elf64_Phdr {
    open spec fn encoded_size() -> nat {
        56
    }

    open spec fn decode(b: Seq<u8>) -> ProgramHeaderFields {
        ProgramHeaderFields {
            p_type: le32(b, 0),
            p_flags: le32(b, 4),
            p_offset: le64(b, 8),
            p_vaddr: le64(b, 16),
            p_paddr: le64(b, 24),
            p_filesz: le64(b, 32),
            p_memsz: le64(b, 40),
            p_align: le64(b, 48),
        }
    }

    open spec fn fields(&self) -> ProgramHeaderFields {
        ProgramHeaderFields {
            p_type: self.p_type,
            p_offset: self.p_offset,
            p_vaddr: self.p_vaddr,
            p_paddr: self.p_paddr,
            p_filesz: self.p_filesz,
            p_memsz: self.p_memsz,
            p_flags: self.p_flags,
            p_align: self.p_align,
        }
    }

    fn from_bytes(bytes: &[u8]) -> (r: Result<Self, ElfError>) {
        Elf64_Phdr::from_bytes(bytes)
    }

    fn p_type(&self) -> (r: u32) {
        self.p_type
    }

    fn p_offset(&self) -> (r: u64) {
        self.p_offset
    }

    fn p_vaddr(&self) -> (r: u64) {
        self.p_vaddr
    }

    fn p_paddr(&self) -> (r: u64) {
        self.p_paddr
    }

    fn p_filesz(&self) -> (r: u64) {
        self.p_filesz
    }

    fn p_memsz(&self) -> (r: u64) {
        self.p_memsz
    }

    fn p_flags(&self) -> (r: u32) {
        self.p_flags
    }

    fn p_align(&self) -> (r: u64) {
        self.p_align
    }
}

} // verus!
