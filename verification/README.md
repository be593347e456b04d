# libelfctf

An ELF parser whose behaviour is specified and proved with Verus.

`ElfFile::parse` reads a little-endian ELF image (32- or 64-bit) into its
file header, program headers with the bytes of each segment, section headers
with their names and bytes, the symbols of every symbol table, the
relocation tables and the dynamic section. Segments, sections and names
borrow from the input buffer.

Layout:

- `src/elf/raw/`: the on-disk records (`Elf32_*`, `Elf64_*`), their
  little-endian decoding and the traits that read either word size.
- `src/elf/{header,program,section,symbols,relocation,dynamic}.rs`: the
  word-size independent types, each with an abstract model (its `DeepView`)
  and the specification of the function that reads it.
- `src/elf/file.rs`: `ElfFile` and `spec_parse_file`, the specification of
  the whole parse; `ElfFile::parse` is proved to return exactly it.
- `src/elf/enums.rs`, `src/elf/text.rs`: the decoded kinds and flags, and
  their printable forms (`to_string`, `flag_names`, `to_debug_string`).
- `src/elf/properties.rs`: properties of parsed images (segments and
  sections are ranges of the input, names come from the name table, the
  symbols are those of every symbol table in section order, relocation
  tables come in section order, the dynamic section is the last one,
  dynamic entries stop at `DT_NULL`, ...).
- `app/main.rs`: `elfinspect`, a command-line viewer that prints the tables.
