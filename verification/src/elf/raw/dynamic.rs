use vstd::prelude::*;

use crate::elf::enums::{DynamicTag, dynamic_tag_of};
use crate::elf::error::ElfError;
use super::bytes::{le32, le64, read_i32, read_i64, read_u32, read_u64, signed32, signed64};

verus! {

/// The fields of a dynamic section entry, widened to the 64-bit layout.
pub struct DynamicFields {
    pub d_tag: i64,
    pub d_un: u64,
}

/// `Elf32_Dyn` (8 bytes).
#[allow(non_camel_case_types)]
pub struct Elf32_Dyn {
    pub d_tag: i32,
    pub d_un: u32,
}

/// `Elf64_Dyn` (16 bytes).
#[allow(non_camel_case_types)]
pub struct Elf64_Dyn {
    pub d_tag: i64,
    pub d_un: u64,
}

impl Elf32_Dyn {
    /// Decodes the little-endian dynamic entry at the start of `bytes`.
    pub fn from_bytes(bytes: &[u8]) -> (r: Result<Self, ElfError>)
        ensures
            bytes@.len() < 8 ==> r == Err::<Self, ElfError>(ElfError::UnexpectedEOF),
            bytes@.len() >= 8 ==> (r matches Ok(v) && v.fields() == Self::decode(bytes@)),
    {
        if bytes.len() < 8 {
            return Err(ElfError::UnexpectedEOF);
        }
        Ok(Elf32_Dyn { d_tag: read_i32(bytes, 0), d_un: read_u32(bytes, 4) })
    }
}

impl Elf64_Dyn {
    /// Decodes the little-endian dynamic entry at the start of `bytes`.
    pub fn from_bytes(bytes: &[u8]) -> (r: Result<Self, ElfError>)
        ensures
            bytes@.len() < 16 ==> r == Err::<Self, ElfError>(ElfError::UnexpectedEOF),
            bytes@.len() >= 16 ==> (r matches Ok(v) && v.fields() == Self::decode(bytes@)),
    {
        if bytes.len() < 16 {
            return Err(ElfError::UnexpectedEOF);
        }
        Ok(Elf64_Dyn { d_tag: read_i64(bytes, 0), d_un: read_u64(bytes, 8) })
    }
}

/// A dynamic section entry of either word size, read through one interface.
pub trait RawDynamic: Sized {
    /// The number of bytes that one encoded entry occupies.
    spec fn encoded_size() -> nat;

    /// The fields that the first `encoded_size()` bytes of `b` encode.
    spec fn decode(b: Seq<u8>) -> DynamicFields;

    /// The fields that this entry holds.
    spec fn fields(&self) -> DynamicFields;

    fn from_bytes(bytes: &[u8]) -> (r: Result<Self, ElfError>)
        ensures
            bytes@.len() < Self::encoded_size() ==> r == Err::<Self, ElfError>(
                ElfError::UnexpectedEOF,
            ),
            bytes@.len() >= Self::encoded_size() ==> (r matches Ok(v) && v.fields()
                == Self::decode(bytes@)),
    ;

    fn tag(&self) -> (r: DynamicTag)
        ensures
            r == dynamic_tag_of(self.fields().d_tag),
    ;

    fn value(&self) -> (r: u64)
        ensures
            r == self.fields().d_un,
    ;
}

impl RawDynamic for Elf32_Dyn {
    open spec fn encoded_size() -> nat {
        8
    }

    open spec fn decode(b: Seq<u8>) -> DynamicFields {
        DynamicFields { d_tag: signed32(le32(b, 0)) as i64, d_un: le32(b, 4) as u64 }
    }

    open spec fn fields(&self) -> DynamicFields {
        DynamicFields { d_tag: self.d_tag as i64, d_un: self.d_un as u64 }
    }

    fn from_bytes(bytes: &[u8]) -> (r: Result<Self, ElfError>) {
        Elf32_Dyn::from_bytes(bytes)
    }

    fn tag(&self) -> (r: DynamicTag) {
        DynamicTag::from_raw(self.d_tag as i64)
    }

    fn value(&self) -> (r: u64) {
        self.d_un as u64
    }
}

impl RawDynamic for Elf64_Dyn {
    open spec fn encoded_size() -> nat {
        16
    }

    open spec fn decode(b: Seq<u8>) -> DynamicFields {
        DynamicFields { d_tag: signed64(le64(b, 0)), d_un: le64(b, 8) }
    }

    open spec fn fields(&self) -> DynamicFields {
        DynamicFields { d_tag: self.d_tag, d_un: self.d_un }
    }

    fn from_bytes(bytes: &[u8]) -> (r: Result<Self, ElfError>) {
        Elf64_Dyn::from_bytes(bytes)
    }

    fn tag(&self) -> (r: DynamicTag) {
        DynamicTag::from_raw(self.d_tag)
    }

    fn value(&self) -> (r: u64) {
        self.d_un
    }
}

} // verus!
