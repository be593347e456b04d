use vstd::prelude::*;

use crate::elf::error::ElfError;
use super::bytes::{le16, le32, le64, read_u8, read_u16, read_u32, read_u64};

verus! {

/// The fields of a symbol table entry, widened to the 64-bit layout.
pub struct SymbolFields {
    pub st_name: u32,
    pub st_info: u8,
    pub st_other: u8,
    pub st_shndx: u32,
    pub st_value: u64,
    pub st_size: u64,
}

/// `Elf32_Sym` (16 bytes).
#[allow(non_camel_case_types)]
pub struct Elf32_Sym {
    pub st_name: u32,
    pub st_value: u32,
    pub st_size: u32,
    pub st_info: u8,
    pub st_other: u8,
    pub st_shndx: u16,
}

/// `Elf64_Sym` (24 bytes).
#[allow(non_camel_case_types)]
pub struct Elf64_Sym {
    pub st_name: u32,
    pub st_info: u8,
    pub st_other: u8,
    pub st_shndx: u16,
    pub st_value: u64,
    pub st_size: u64,
}

impl Elf32_Sym {
    /// Decodes the little-endian symbol at the start of `bytes`.
    pub fn from_bytes(bytes: &[u8]) -> (r: Result<Self, ElfError>)
        ensures
            bytes@.len() < 16 ==> r == Err::<Self, ElfError>(ElfError::UnexpectedEOF),
            bytes@.len() >= 16 ==> (r matches Ok(s) && s.fields() == Self::decode(bytes@)),
    {
        if bytes.len() < 16 {
            return Err(ElfError::UnexpectedEOF);
        }
        Ok(Elf32_Sym {
            st_name: read_u32(bytes, 0),
            st_value: read_u32(bytes, 4),
            st_size: read_u32(bytes, 8),
            st_info: read_u8(bytes, 12),
            st_other: read_u8(bytes, 13),
            st_shndx: read_u16(bytes, 14),
        })
    }
}

impl Elf64_Sym {
    /// Decodes the little-endian symbol at the start of `bytes`.
    pub fn from_bytes(bytes: &[u8]) -> (r: Result<Self, ElfError>)
        ensures
            bytes@.len() < 24 ==> r == Err::<Self, ElfError>(ElfError::UnexpectedEOF),
            bytes@.len() >= 24 ==> (r matches Ok(s) && s.fields() == Self::decode(bytes@)),
    {
        if bytes.len() < 24 {
            return Err(ElfError::UnexpectedEOF);
        }
        Ok(Elf64_Sym {
            st_name: read_u32(bytes, 0),
            st_info: read_u8(bytes, 4),
            st_other: read_u8(bytes, 5),
            st_shndx: read_u16(bytes, 6),
            st_value: read_u64(bytes, 8),
            st_size: read_u64(bytes, 16),
        })
    }
}

/// A symbol table entry of either word size, read through one interface.
pub trait RawSymbol: Sized {
    /// The number of bytes that one encoded symbol occupies.
    spec fn encoded_size() -> nat;

    /// The fields that the first `encoded_size()` bytes of `b` encode.
    spec fn decode(b: Seq<u8>) -> SymbolFields;

    /// The fields that this entry holds.
    spec fn fields(&self) -> SymbolFields;

    fn from_bytes(bytes: &[u8]) -> (r: Result<Self, ElfError>)
        ensures
            bytes@.len() < Self::encoded_size() ==> r == Err::<Self, ElfError>(
                ElfError::UnexpectedEOF,
            ),
            bytes@.len() >= Self::encoded_size() ==> (r matches Ok(s) && s.fields()
                == Self::decode(bytes@)),
    ;

    fn st_name(&self) -> (r: u32)
        ensures
            r == self.fields().st_name,
    ;

    fn st_info(&self) -> (r: u8)
        ensures
            r == self.fields().st_info,
    ;

    fn st_other(&self) -> (r: u8)
        ensures
            r == self.fields().st_other,
    ;

    fn st_shndx(&self) -> (r: u32)
        ensures
            r == self.fields().st_shndx,
    ;

    fn st_value(&self) -> (r: u64)
        ensures
            r == self.fields().st_value,
    ;

    fn st_size(&self) -> (r: u64)
        ensures
            r == self.fields().st_size,
    ;

    fn name_offset(&self) -> (r: u32)
        ensures
            r == self.fields().st_name,
    {
        self.st_name()
    }

    fn value(&self) -> (r: u64)
        ensures
            r == self.fields().st_value,
    {
        self.st_value()
    }

    fn size(&self) -> (r: u64)
        ensures
            r == self.fields().st_size,
    {
        self.st_size()
    }

    fn info(&self) -> (r: u8)
        ensures
            r == self.fields().st_info,
    {
        self.st_info()
    }

    fn section_index(&self) -> (r: u32)
        ensures
            r == self.fields().st_shndx,
    {
        self.st_shndx()
    }
}

impl RawSymbol for Elf32_Sym {
    open spec fn encoded_size() -> nat {
        16
    }

    open spec fn decode(b: Seq<u8>) -> SymbolFields {
        SymbolFields {
            st_name: le32(b, 0),
            st_value: le32(b, 4) as u64,
            st_size: le32(b, 8) as u64,
            st_info: b[12],
            st_other: b[13],
            st_shndx: le16(b, 14) as u32,
        }
    }

    open spec fn fields(&self) -> SymbolFields {
        SymbolFields {
            st_name: self.st_name,
            st_value: self.st_value as u64,
            st_size: self.st_size as u64,
            st_info: self.st_info,
            st_other: self.st_other,
            st_shndx: self.st_shndx as u32,
        }
    }

    fn from_bytes(bytes: &[u8]) -> (r: Result<Self, ElfError>) {
        Elf32_Sym::from_bytes(bytes)
    }

    fn st_name(&self) -> (r: u32) {
        self.st_name
    }

    fn st_value(&self) -> (r: u64) {
        self.st_value as u64
    }

    fn st_size(&self) -> (r: u64) {
        self.st_size as u64
    }

    fn st_info(&self) -> (r: u8) {
        self.st_info
    }

    fn st_other(&self) -> (r: u8) {
        self.st_other
    }

    fn st_shndx(&self) -> (r: u32) {
        self.st_shndx as u32
    }
}

impl RawSymbol for Elf64_Sym {
    open spec fn encoded_size() -> nat {
        24
    }

    open spec fn decode(b: Seq<u8>) -> SymbolFields {
        SymbolFields {
            st_name: le32(b, 0),
            st_info: b[4],
            st_other: b[5],
            st_shndx: le16(b, 6) as u32,
            st_value: le64(b, 8),
            st_size: le64(b, 16),
        }
    }

    open spec fn fields(&self) -> SymbolFields {
        SymbolFields {
            st_name: self.st_name,
            st_info: self.st_info,
            st_other: self.st_other,
            st_shndx: self.st_shndx as u32,
            st_value: self.st_value,
            st_size: self.st_size,
        }
    }

    fn from_bytes(bytes: &[u8]) -> (r: Result<Self, ElfError>) {
        Elf64_Sym::from_bytes(bytes)
    }

    fn st_name(&self) -> (r: u32) {
        self.st_name
    }

    fn st_info(&self) -> (r: u8) {
        self.st_info
    }

    fn st_other(&self) -> (r: u8) {
        self.st_other
    }

    fn st_shndx(&self) -> (r: u32) {
        self.st_shndx as u32
    }

    fn st_value(&self) -> (r: u64) {
        self.st_value
    }

    fn st_size(&self) -> (r: u64) {
        self.st_size
    }
}

} // verus!
