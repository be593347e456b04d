pub mod bytes;
pub mod header;
pub mod program;
pub mod section;
pub mod symbol;
pub mod relocation;
pub mod dynamic;
pub mod traits;
pub mod types;

pub use header::{Elf32_Ehdr, Elf64_Ehdr, HeaderFields, RawElfHeader};
pub use program::{Elf32_Phdr, Elf64_Phdr, ProgramHeaderFields, RawProgramHeader};
pub use section::{Elf32_Shdr, Elf64_Shdr, RawSectionHeader, SectionHeaderFields};
pub use symbol::{Elf32_Sym, Elf64_Sym, RawSymbol, SymbolFields};
pub use relocation::{Elf32_Rel, Elf64_Rel, Elf32_Rela, Elf64_Rela, RawRelocation, RelocationFields};
pub use dynamic::{Elf32_Dyn, Elf64_Dyn, DynamicFields, RawDynamic};
pub use traits::ElfTypes;
pub use types::{Elf32Types, Elf64Types};
