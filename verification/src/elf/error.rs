use vstd::prelude::*;

verus! {

/// Reasons for which an ELF image is refused.
#[derive(Debug, Clone, Copy, PartialEq, Eq, Structural)]
pub enum ElfError {
    InvalidMagic,
    UnknownClass(u8),
    UnexpectedEOF,
    InvalidSectionIndex,
    InvalidOffset,
    InvalidString,
    InvalidStringOffset,
    InvalidEntrySize,
}

impl ElfError {
    /// The text that describes the error to a user.
    pub fn message(&self) -> (r: &'static str)
        ensures
            match self {
                ElfError::InvalidMagic => r@ == "invalid magic bytes"@,
                ElfError::UnexpectedEOF => r@ == "unexpected end of file"@,
                ElfError::UnknownClass(_) => r@ == "unknown ELF class"@,
                ElfError::InvalidSectionIndex => r@ == "invalid section index"@,
                ElfError::InvalidOffset => r@ == "invalid offset"@,
                ElfError::InvalidString => r@ == "invalid string"@,
                ElfError::InvalidStringOffset => r@ == "invalid string offset"@,
                ElfError::InvalidEntrySize => r@ == "invalid entry size"@,
            },
    {
        match self {
            ElfError::InvalidMagic => "invalid magic bytes",
            ElfError::UnexpectedEOF => "unexpected end of file",
            ElfError::UnknownClass(_) => "unknown ELF class",
            ElfError::InvalidSectionIndex => "invalid section index",
            ElfError::InvalidOffset => "invalid offset",
            ElfError::InvalidString => "invalid string",
            ElfError::InvalidStringOffset => "invalid string offset",
            ElfError::InvalidEntrySize => "invalid entry size",
        }
    }
}

} // verus!
