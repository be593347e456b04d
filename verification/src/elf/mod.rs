pub mod collect;
pub mod constants;
pub mod dynamic;
pub mod enums;
pub mod error;
pub mod file;
pub mod header;
pub mod layout;
pub mod program;
pub mod properties;
pub mod raw;
pub mod relocation;
pub mod section;
pub mod symbols;
pub mod text;
pub mod utility;

pub use error::ElfError;
pub use file::ElfFile;
pub use header::ElfHeader;
pub use enums::{
    Endianness,
    ElfClass,
    Machine,
    FileType,
    SegmentType,
    SegmentFlags,
    SectionType,
    SectionFlags,
    SymbolBinding,
    SymbolType,
    DynamicTag,
    RelocationType,
};
