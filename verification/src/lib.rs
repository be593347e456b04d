//! Parsing of ELF binaries into a checked, high-level representation.
pub mod elf;
