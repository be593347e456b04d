use vstd::prelude::*;

use super::header::RawElfHeader;
use super::program::RawProgramHeader;
use super::section::RawSectionHeader;
use super::symbol::RawSymbol;
use super::relocation::RawRelocation;
use super::dynamic::RawDynamic;

verus! {

/// The record layouts of one ELF class.
pub trait ElfTypes {
    type Header: RawElfHeader;
    type ProgramHeader: RawProgramHeader;
    type SectionHeader: RawSectionHeader;
    type Symbol: RawSymbol;
    type Rel: RawRelocation;
    type Rela: RawRelocation;
    type Dynamic: RawDynamic;
}

} // verus!
