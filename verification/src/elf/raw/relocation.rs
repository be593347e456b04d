use vstd::prelude::*;

use crate::elf::enums::RelocationType;
use crate::elf::error::ElfError;
use super::bytes::{le32, le64, read_i32, read_i64, read_u32, read_u64, signed32, signed64};

verus! {

/// The fields of a relocation entry, widened to the 64-bit layout; `addend`
/// is present for the `Rela` forms only.
pub struct RelocationFields {
    pub offset: u64,
    pub info: u64,
    pub addend: Option<i64>,
}

/// `Elf32_Rel` (8 bytes).
#[allow(non_camel_case_types)]
pub struct Elf32_Rel {
    r_offset: u32,
    r_info: u32,
}

/// `Elf64_Rel` (16 bytes).
#[allow(non_camel_case_types)]
pub struct Elf64_Rel {
    r_offset: u64,
    r_info: u64,
}

/// `Elf32_Rela` (12 bytes).
#[allow(non_camel_case_types)]
pub struct Elf32_Rela {
    r_offset: u32,
    r_info: u32,
    r_addend: i32,
}

/// `Elf64_Rela` (24 bytes).
#[allow(non_camel_case_types)]
pub struct Elf64_Rela {
    r_offset: u64,
    r_info: u64,
    r_addend: i64,
}

impl Elf32_Rel {
    /// Decodes the little-endian relocation at the start of `bytes`.
    pub fn from_bytes(bytes: &[u8]) -> (r: Result<Self, ElfError>)
        ensures
            bytes@.len() < 8 ==> r == Err::<Self, ElfError>(ElfError::UnexpectedEOF),
            bytes@.len() >= 8 ==> (r matches Ok(v) && v.fields() == Self::decode(bytes@)),
    {
        if bytes.len() < 8 {
            return Err(ElfError::UnexpectedEOF);
        }
        Ok(Elf32_Rel { r_offset: read_u32(bytes, 0), r_info: read_u32(bytes, 4) })
    }
}

impl Elf64_Rel {
    /// Decodes the little-endian relocation at the start of `bytes`.
    pub fn from_bytes(bytes: &[u8]) -> (r: Result<Self, ElfError>)
        ensures
            bytes@.len() < 16 ==> r == Err::<Self, ElfError>(ElfError::UnexpectedEOF),
            bytes@.len() >= 16 ==> (r matches Ok(v) && v.fields() == Self::decode(bytes@)),
    {
        if bytes.len() < 16 {
            return Err(ElfError::UnexpectedEOF);
        }
        Ok(Elf64_Rel { r_offset: read_u64(bytes, 0), r_info: read_u64(bytes, 8) })
    }
}

impl Elf32_Rela {
    /// Decodes the little-endian relocation at the start of `bytes`.
    pub fn from_bytes(bytes: &[u8]) -> (r: Result<Self, ElfError>)
        ensures
            bytes@.len() < 12 ==> r == Err::<Self, ElfError>(ElfError::UnexpectedEOF),
            bytes@.len() >= 12 ==> (r matches Ok(v) && v.fields() == Self::decode(bytes@)),
    {
        if bytes.len() < 12 {
            return Err(ElfError::UnexpectedEOF);
        }
        Ok(
            Elf32_Rela {
                r_offset: read_u32(bytes, 0),
                r_info: read_u32(bytes, 4),
                r_addend: read_i32(bytes, 8),
            },
        )
    }
}

impl Elf64_Rela {
    /// Decodes the little-endian relocation at the start of `bytes`.
    pub fn from_bytes(bytes: &[u8]) -> (r: Result<Self, ElfError>)
        ensures
            bytes@.len() < 24 ==> r == Err::<Self, ElfError>(ElfError::UnexpectedEOF),
            bytes@.len() >= 24 ==> (r matches Ok(v) && v.fields() == Self::decode(bytes@)),
    {
        if bytes.len() < 24 {
            return Err(ElfError::UnexpectedEOF);
        }
        Ok(
            Elf64_Rela {
                r_offset: read_u64(bytes, 0),
                r_info: read_u64(bytes, 8),
                r_addend: read_i64(bytes, 16),
            },
        )
    }
}

/// The symbol index that `info` names: its high 32 bits.
pub open spec fn info_symbol(info: u64) -> u32 {
    (info / 0x1_0000_0000) as u32
}

/// The relocation type that `info` names: its low 32 bits.
pub open spec fn info_type(info: u64) -> u32 {
    (info % 0x1_0000_0000) as u32
}

/// A relocation entry of any of the four layouts, read through one interface.
pub trait RawRelocation: Sized {
    /// The number of bytes that one encoded entry occupies.
    spec fn encoded_size() -> nat;

    /// The fields that the first `encoded_size()` bytes of `b` encode.
    spec fn decode(b: Seq<u8>) -> RelocationFields;

    /// The fields that this entry holds.
    spec fn fields(&self) -> RelocationFields;

    fn from_bytes(bytes: &[u8]) -> (r: Result<Self, ElfError>)
        ensures
            bytes@.len() < Self::encoded_size() ==> r == Err::<Self, ElfError>(
                ElfError::UnexpectedEOF,
            ),
            bytes@.len() >= Self::encoded_size() ==> (r matches Ok(v) && v.fields()
                == Self::decode(bytes@)),
    ;

    fn offset(&self) -> (r: u64)
        ensures
            r == self.fields().offset,
    ;

    fn info(&self) -> (r: u64)
        ensures
            r == self.fields().info,
    ;

    fn symbol_index(&self) -> (r: u32)
        ensures
            r == info_symbol(self.fields().info),
    {
        let info = self.info();
        assert(info >> 32u64 == info / 0x1_0000_0000) by (bit_vector);
        (info >> 32) as u32
    }

    fn relocation_type(&self) -> (r: RelocationType)
        ensures
            r == RelocationType(info_type(self.fields().info)),
    {
        let info = self.info();
        assert(info & 0xffff_ffffu64 == info % 0x1_0000_0000) by (bit_vector);
        RelocationType((info & 0xffffffff) as u32)
    }

    fn addend(&self) -> (r: Option<i64>)
        ensures
            r == self.fields().addend,
    ;
}

impl RawRelocation for Elf32_Rel {
    open spec fn encoded_size() -> nat {
        8
    }

    open spec fn decode(b: Seq<u8>) -> RelocationFields {
        RelocationFields { offset: le32(b, 0) as u64, info: le32(b, 4) as u64, addend: None }
    }

    closed spec fn fields(&self) -> RelocationFields {
        RelocationFields { offset: self.r_offset as u64, info: self.r_info as u64, addend: None }
    }

    fn from_bytes(bytes: &[u8]) -> (r: Result<Self, ElfError>) {
        Elf32_Rel::from_bytes(bytes)
    }

    fn offset(&self) -> (r: u64) {
        self.r_offset as u64
    }

    fn info(&self) -> (r: u64) {
        self.r_info as u64
    }

    fn addend(&self) -> (r: Option<i64>) {
        None
    }
}

impl RawRelocation for Elf64_Rel {
    open spec fn encoded_size() -> nat {
        16
    }

    open spec fn decode(b: Seq<u8>) -> RelocationFields {
        RelocationFields { offset: le64(b, 0), info: le64(b, 8), addend: None }
    }

    closed spec fn fields(&self) -> RelocationFields {
        RelocationFields { offset: self.r_offset, info: self.r_info, addend: None }
    }

    fn from_bytes(bytes: &[u8]) -> (r: Result<Self, ElfError>) {
        Elf64_Rel::from_bytes(bytes)
    }

    fn offset(&self) -> (r: u64) {
        self.r_offset
    }

    fn info(&self) -> (r: u64) {
        self.r_info
    }

    fn addend(&self) -> (r: Option<i64>) {
        None
    }
}

impl RawRelocation for Elf32_Rela {
    open spec fn encoded_size() -> nat {
        12
    }

    open spec fn decode(b: Seq<u8>) -> RelocationFields {
        RelocationFields {
            offset: le32(b, 0) as u64,
            info: le32(b, 4) as u64,
            addend: Some(signed32(le32(b, 8)) as i64),
        }
    }

    closed spec fn fields(&self) -> RelocationFields {
        RelocationFields {
            offset: self.r_offset as u64,
            info: self.r_info as u64,
            addend: Some(self.r_addend as i64),
        }
    }

    fn from_bytes(bytes: &[u8]) -> (r: Result<Self, ElfError>) {
        Elf32_Rela::from_bytes(bytes)
    }

    fn offset(&self) -> (r: u64) {
        self.r_offset as u64
    }

    fn info(&self) -> (r: u64) {
        self.r_info as u64
    }

    fn addend(&self) -> (r: Option<i64>) {
        Some(self.r_addend as i64)
    }
}

impl RawRelocation for Elf64_Rela {
    open spec fn encoded_size() -> nat {
        24
    }

    open spec fn decode(b: Seq<u8>) -> RelocationFields {
        RelocationFields {
            offset: le64(b, 0),
            info: le64(b, 8),
            addend: Some(signed64(le64(b, 16))),
        }
    }

    closed spec fn fields(&self) -> RelocationFields {
        RelocationFields { offset: self.r_offset, info: self.r_info, addend: Some(self.r_addend) }
    }

    fn from_bytes(bytes: &[u8]) -> (r: Result<Self, ElfError>) {
        Elf64_Rela::from_bytes(bytes)
    }

    fn offset(&self) -> (r: u64) {
        self.r_offset
    }

    fn info(&self) -> (r: u64) {
        self.r_info
    }

    fn addend(&self) -> (r: Option<i64>) {
        Some(self.r_addend)
    }
}

} // verus!
