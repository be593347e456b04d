use vstd::prelude::*;
use vstd::string::StringExecFns;

use super::text::{hex_digits, join_with_bars, lemma_join_push, push_hex};

verus! {

// ---------------------------------------------------------------------
// Endianness (EI_DATA)
// ---------------------------------------------------------------------

/// Byte order announced in `e_ident[EI_DATA]`.
#[derive(Debug, Clone, Copy, PartialEq, Eq, Structural)]
pub enum Endianness {
    Little,
    Big,
    Unknown(u8),
}

/// The endianness named by the byte `v`.
pub open spec fn endianness_of(v: u8) -> Endianness {
    if v == 1 {
        Endianness::Little
    } else if v == 2 {
        Endianness::Big
    } else {
        Endianness::Unknown(v)
    }
}

/// The byte that encodes `e`.
pub open spec fn endianness_byte(e: Endianness) -> u8 {
    match e {
        Endianness::Little => 1,
        Endianness::Big => 2,
        Endianness::Unknown(other) => other,
    }
}

/// A value that `endianness_of` can produce.
pub open spec fn endianness_canonical(e: Endianness) -> bool {
    match e {
        Endianness::Unknown(v) => v != 1 && v != 2,
        _ => true,
    }
}

impl Endianness {
    /// Decodes the number `value`.
    pub fn from_raw(value: u8) -> (r: Self)
        ensures
            r == endianness_of(value),
    {
        match value {
            1 => Endianness::Little,
            2 => Endianness::Big,
            other => Endianness::Unknown(other),
        }
    }
}

impl From<u8> for Endianness {
    fn from(value: u8) -> (r: Self)
        ensures
            r == endianness_of(value),
    {
        Endianness::from_raw(value)
    }
}

impl vstd::std_specs::convert::FromSpecImpl<u8> for Endianness {
    open spec fn obeys_from_spec() -> bool {
        true
    }

    open spec fn from_spec(v: u8) -> Self {
        endianness_of(v)
    }
}

impl From<Endianness> for u8 {
    fn from(value: Endianness) -> (r: Self) {
        match value {
            Endianness::Little => 1,
            Endianness::Big => 2,
            Endianness::Unknown(other) => other,
        }
    }
}

impl vstd::std_specs::convert::FromSpecImpl<Endianness> for u8 {
    open spec fn obeys_from_spec() -> bool {
        true
    }

    open spec fn from_spec(v: Endianness) -> Self {
        endianness_byte(v)
    }
}

/// Encoding the endianness decoded from a byte gives back that byte.
pub proof fn lemma_endianness_byte_roundtrip(v: u8)
    ensures
        endianness_byte(endianness_of(v)) == v,
{
}

/// Decoding the byte of an endianness gives it back, for every endianness that
/// decoding can produce.
pub proof fn lemma_endianness_value_roundtrip(e: Endianness)
    requires
        endianness_canonical(e),
    ensures
        endianness_of(endianness_byte(e)) == e,
{
}

// ---------------------------------------------------------------------
// ElfClass (EI_CLASS)
// ---------------------------------------------------------------------

/// Word size announced in `e_ident[EI_CLASS]`.
#[derive(Debug, Clone, Copy, PartialEq, Eq, Structural)]
pub enum ElfClass {
    NoClass,
    Elf32,
    Elf64,
    Unknown(u8),
}

/// The class named by the byte `v`.
pub open spec fn elf_class_of(v: u8) -> ElfClass {
    if v == 0 {
        ElfClass::NoClass
    } else if v == 1 {
        ElfClass::Elf32
    } else if v == 2 {
        ElfClass::Elf64
    } else {
        ElfClass::Unknown(v)
    }
}

/// The byte that encodes `c`.
pub open spec fn elf_class_byte(c: ElfClass) -> u8 {
    match c {
        ElfClass::NoClass => 0,
        ElfClass::Elf32 => 1,
        ElfClass::Elf64 => 2,
        ElfClass::Unknown(other) => other,
    }
}

/// A value that `elf_class_of` can produce.
pub open spec fn elf_class_canonical(c: ElfClass) -> bool {
    match c {
        ElfClass::Unknown(v) => v > 2,
        _ => true,
    }
}

impl ElfClass {
    /// Decodes the number `value`.
    pub fn from_raw(value: u8) -> (r: Self)
        ensures
            r == elf_class_of(value),
    {
        match value {
            0 => ElfClass::NoClass,
            1 => ElfClass::Elf32,
            2 => ElfClass::Elf64,
            other => ElfClass::Unknown(other),
        }
    }
}

impl From<u8> for ElfClass {
    fn from(value: u8) -> (r: Self)
        ensures
            r == elf_class_of(value),
    {
        ElfClass::from_raw(value)
    }
}

impl vstd::std_specs::convert::FromSpecImpl<u8> for ElfClass {
    open spec fn obeys_from_spec() -> bool {
        true
    }

    open spec fn from_spec(v: u8) -> Self {
        elf_class_of(v)
    }
}

impl From<ElfClass> for u8 {
    fn from(value: ElfClass) -> (r: u8) {
        match value {
            ElfClass::NoClass => 0,
            ElfClass::Elf32 => 1,
            ElfClass::Elf64 => 2,
            ElfClass::Unknown(other) => other,
        }
    }
}

impl vstd::std_specs::convert::FromSpecImpl<ElfClass> for u8 {
    open spec fn obeys_from_spec() -> bool {
        true
    }

    open spec fn from_spec(v: ElfClass) -> Self {
        elf_class_byte(v)
    }
}

/// Encoding the class decoded from a byte gives back that byte.
pub proof fn lemma_elf_class_byte_roundtrip(v: u8)
    ensures
        elf_class_byte(elf_class_of(v)) == v,
{
}

/// Decoding the byte of a class gives it back, for every class that decoding
/// can produce.
pub proof fn lemma_elf_class_value_roundtrip(c: ElfClass)
    requires
        elf_class_canonical(c),
    ensures
        elf_class_of(elf_class_byte(c)) == c,
{
}

// ---------------------------------------------------------------------
// Machine (e_machine)
// ---------------------------------------------------------------------

/// Target architecture named by `e_machine`.
#[derive(Debug, Clone, Copy, PartialEq, Eq, Structural)]
pub enum Machine {
    NoMachine,
    X86,
    X86_64,
    Arm,
    AArch64,
    Unknown(u16),
}

/// The machine named by the number `v`.
pub open spec fn machine_of(v: u16) -> Machine {
    if v == 0 {
        Machine::NoMachine
    } else if v == 3 {
        Machine::X86
    } else if v == 40 {
        Machine::Arm
    } else if v == 62 {
        Machine::X86_64
    } else if v == 183 {
        Machine::AArch64
    } else {
        Machine::Unknown(v)
    }
}

/// The number that encodes `m`.
pub open spec fn machine_number(m: Machine) -> u16 {
    match m {
        Machine::NoMachine => 0,
        Machine::X86 => 3,
        Machine::Arm => 40,
        Machine::X86_64 => 62,
        Machine::AArch64 => 183,
        Machine::Unknown(other) => other,
    }
}

/// A value that `machine_of` can produce.
pub open spec fn machine_canonical(m: Machine) -> bool {
    match m {
        Machine::Unknown(v) => v != 0 && v != 3 && v != 40 && v != 62 && v != 183,
        _ => true,
    }
}

impl Machine {
    /// Decodes the number `value`.
    pub fn from_raw(value: u16) -> (r: Self)
        ensures
            r == machine_of(value),
    {
        match value {
            0 => Machine::NoMachine,
            3 => Machine::X86,
            40 => Machine::Arm,
            62 => Machine::X86_64,
            183 => Machine::AArch64,
            other => Machine::Unknown(other),
        }
    }
}

impl From<u16> for Machine {
    fn from(value: u16) -> (r: Self)
        ensures
            r == machine_of(value),
    {
        Machine::from_raw(value)
    }
}

impl vstd::std_specs::convert::FromSpecImpl<u16> for Machine {
    open spec fn obeys_from_spec() -> bool {
        true
    }

    open spec fn from_spec(v: u16) -> Self {
        machine_of(v)
    }
}

impl From<Machine> for u16 {
    fn from(value: Machine) -> (r: u16) {
        match value {
            Machine::NoMachine => 0,
            Machine::X86 => 3,
            Machine::Arm => 40,
            Machine::X86_64 => 62,
            Machine::AArch64 => 183,
            Machine::Unknown(other) => other,
        }
    }
}

impl vstd::std_specs::convert::FromSpecImpl<Machine> for u16 {
    open spec fn obeys_from_spec() -> bool {
        true
    }

    open spec fn from_spec(v: Machine) -> Self {
        machine_number(v)
    }
}

/// Encoding the machine decoded from a number gives back that number.
pub proof fn lemma_machine_number_roundtrip(v: u16)
    ensures
        machine_number(machine_of(v)) == v,
{
}

/// Decoding the number of a machine gives it back, for every machine that
/// decoding can produce.
pub proof fn lemma_machine_value_roundtrip(m: Machine)
    requires
        machine_canonical(m),
    ensures
        machine_of(machine_number(m)) == m,
{
}

// ---------------------------------------------------------------------
// FileType (e_type)
// ---------------------------------------------------------------------

/// Object file type named by `e_type`.
#[derive(Debug, Clone, Copy, PartialEq, Eq, Structural)]
pub enum FileType {
    NoFileType,
    Relocatable,
    Executable,
    Dynamic,
    Core,
    Unknown(u16),
}

/// The file type named by the number `v`.
pub open spec fn file_type_of(v: u16) -> FileType {
    if v == 0 {
        FileType::NoFileType
    } else if v == 1 {
        FileType::Relocatable
    } else if v == 2 {
        FileType::Executable
    } else if v == 3 {
        FileType::Dynamic
    } else if v == 4 {
        FileType::Core
    } else {
        FileType::Unknown(v)
    }
}

/// The number that encodes `t`.
pub open spec fn file_type_number(t: FileType) -> u16 {
    match t {
        FileType::NoFileType => 0,
        FileType::Relocatable => 1,
        FileType::Executable => 2,
        FileType::Dynamic => 3,
        FileType::Core => 4,
        FileType::Unknown(other) => other,
    }
}

/// A value that `file_type_of` can produce.
pub open spec fn file_type_canonical(t: FileType) -> bool {
    match t {
        FileType::Unknown(v) => v > 4,
        _ => true,
    }
}

impl FileType {
    /// Decodes the number `value`.
    pub fn from_raw(value: u16) -> (r: Self)
        ensures
            r == file_type_of(value),
    {
        match value {
            0 => FileType::NoFileType,
            1 => FileType::Relocatable,
            2 => FileType::Executable,
            3 => FileType::Dynamic,
            4 => FileType::Core,
            other => FileType::Unknown(other),
        }
    }
}

impl From<u16> for FileType {
    fn from(value: u16) -> (r: Self)
        ensures
            r == file_type_of(value),
    {
        FileType::from_raw(value)
    }
}

impl vstd::std_specs::convert::FromSpecImpl<u16> for FileType {
    open spec fn obeys_from_spec() -> bool {
        true
    }

    open spec fn from_spec(v: u16) -> Self {
        file_type_of(v)
    }
}

impl From<FileType> for u16 {
    fn from(value: FileType) -> (r: u16) {
        match value {
            FileType::NoFileType => 0,
            FileType::Relocatable => 1,
            FileType::Executable => 2,
            FileType::Dynamic => 3,
            FileType::Core => 4,
            FileType::Unknown(other) => other,
        }
    }
}

impl vstd::std_specs::convert::FromSpecImpl<FileType> for u16 {
    open spec fn obeys_from_spec() -> bool {
        true
    }

    open spec fn from_spec(v: FileType) -> Self {
        file_type_number(v)
    }
}

/// Encoding the file type decoded from a number gives back that number.
pub proof fn lemma_file_type_number_roundtrip(v: u16)
    ensures
        file_type_number(file_type_of(v)) == v,
{
}

/// Decoding the number of a file type gives it back, for every file type that
/// decoding can produce.
pub proof fn lemma_file_type_value_roundtrip(t: FileType)
    requires
        file_type_canonical(t),
    ensures
        file_type_of(file_type_number(t)) == t,
{
}

// ---------------------------------------------------------------------
// SegmentType (p_type)
// ---------------------------------------------------------------------

/// Kind of a program header entry, named by `p_type`.
#[derive(Debug, Clone, Copy, PartialEq, Eq, Structural)]
pub enum SegmentType {
    Null,
    Load,
    Dynamic,
    Interpreter,
    Note,
    Shlib,
    ProgramHeader,
    ThreadLocalStorage,
    OsSpecific(u32),
    ProcessorSpecific(u32),
    Unknown(u32),
}

/// The segment type named by the number `v`; `PT_LOOS..=PT_HIOS` and
/// `PT_LOPROC..=PT_HIPROC` keep their number.
pub open spec fn segment_type_of(v: u32) -> SegmentType {
    if v == 0 {
        SegmentType::Null
    } else if v == 1 {
        SegmentType::Load
    } else if v == 2 {
        SegmentType::Dynamic
    } else if v == 3 {
        SegmentType::Interpreter
    } else if v == 4 {
        SegmentType::Note
    } else if v == 5 {
        SegmentType::Shlib
    } else if v == 6 {
        SegmentType::ProgramHeader
    } else if v == 7 {
        SegmentType::ThreadLocalStorage
    } else if 0x6000_0000 <= v <= 0x6fff_ffff {
        SegmentType::OsSpecific(v)
    } else if 0x7000_0000 <= v <= 0x7fff_ffff {
        SegmentType::ProcessorSpecific(v)
    } else {
        SegmentType::Unknown(v)
    }
}

/// The number that encodes `t`.
pub open spec fn segment_type_number(t: SegmentType) -> u32 {
    match t {
        SegmentType::Null => 0,
        SegmentType::Load => 1,
        SegmentType::Dynamic => 2,
        SegmentType::Interpreter => 3,
        SegmentType::Note => 4,
        SegmentType::Shlib => 5,
        SegmentType::ProgramHeader => 6,
        SegmentType::ThreadLocalStorage => 7,
        SegmentType::OsSpecific(value) => value,
        SegmentType::ProcessorSpecific(value) => value,
        SegmentType::Unknown(other) => other,
    }
}

/// A value that `segment_type_of` can produce.
pub open spec fn segment_type_canonical(t: SegmentType) -> bool {
    match t {
        SegmentType::OsSpecific(v) => 0x6000_0000 <= v <= 0x6fff_ffff,
        SegmentType::ProcessorSpecific(v) => 0x7000_0000 <= v <= 0x7fff_ffff,
        SegmentType::Unknown(v) => v > 7 && !(0x6000_0000 <= v <= 0x7fff_ffff),
        _ => true,
    }
}

impl SegmentType {
    /// Decodes the number `value`.
    pub fn from_raw(value: u32) -> (r: Self)
        ensures
            r == segment_type_of(value),
    {
        match value {
            0 => SegmentType::Null,
            1 => SegmentType::Load,
            2 => SegmentType::Dynamic,
            3 => SegmentType::Interpreter,
            4 => SegmentType::Note,
            5 => SegmentType::Shlib,
            6 => SegmentType::ProgramHeader,
            7 => SegmentType::ThreadLocalStorage,
            0x6000_0000..=0x6fff_ffff => SegmentType::OsSpecific(value),
            0x7000_0000..=0x7fff_ffff => SegmentType::ProcessorSpecific(value),
            other => SegmentType::Unknown(other),
        }
    }
}

impl From<u32> for SegmentType {
    fn from(value: u32) -> (r: Self)
        ensures
            r == segment_type_of(value),
    {
        SegmentType::from_raw(value)
    }
}

impl vstd::std_specs::convert::FromSpecImpl<u32> for SegmentType {
    open spec fn obeys_from_spec() -> bool {
        true
    }

    open spec fn from_spec(v: u32) -> Self {
        segment_type_of(v)
    }
}

impl From<SegmentType> for u32 {
    fn from(value: SegmentType) -> (r: u32) {
        match value {
            SegmentType::Null => 0,
            SegmentType::Load => 1,
            SegmentType::Dynamic => 2,
            SegmentType::Interpreter => 3,
            SegmentType::Note => 4,
            SegmentType::Shlib => 5,
            SegmentType::ProgramHeader => 6,
            SegmentType::ThreadLocalStorage => 7,
            SegmentType::OsSpecific(value) => value,
            SegmentType::ProcessorSpecific(value) => value,
            SegmentType::Unknown(other) => other,
        }
    }
}

impl vstd::std_specs::convert::FromSpecImpl<SegmentType> for u32 {
    open spec fn obeys_from_spec() -> bool {
        true
    }

    open spec fn from_spec(v: SegmentType) -> Self {
        segment_type_number(v)
    }
}

/// Encoding the segment type decoded from a number gives back that number.
pub proof fn lemma_segment_type_number_roundtrip(v: u32)
    ensures
        segment_type_number(segment_type_of(v)) == v,
{
}

/// Decoding the number of a segment type gives it back, for every segment
/// type that decoding can produce.
pub proof fn lemma_segment_type_value_roundtrip(t: SegmentType)
    requires
        segment_type_canonical(t),
    ensures
        segment_type_of(segment_type_number(t)) == t,
{
}

// ---------------------------------------------------------------------
// SegmentFlags (p_flags)
// ---------------------------------------------------------------------

/// Permission bits of a segment (`PF_X`, `PF_W`, `PF_R`).
#[derive(Clone, Copy, PartialEq, Eq, Structural)]
pub struct SegmentFlags(pub u32);

impl SegmentFlags {
    /// `PF_X`.
    pub const EXECUTE: u32 = 0x1;
    /// `PF_W`.
    pub const WRITE: u32 = 0x2;
    /// `PF_R`.
    pub const READ: u32 = 0x4;

    /// The raw `p_flags` word.
    pub open spec fn spec_bits(self) -> u32 {
        self.0
    }

    pub fn readable(self) -> (r: bool)
        ensures
            r == (self.0 & 0x4 != 0),
    {
        self.0 & SegmentFlags::READ != 0
    }

    pub fn writable(self) -> (r: bool)
        ensures
            r == (self.0 & 0x2 != 0),
    {
        self.0 & SegmentFlags::WRITE != 0
    }

    pub fn executable(self) -> (r: bool)
        ensures
            r == (self.0 & 0x1 != 0),
    {
        self.0 & SegmentFlags::EXECUTE != 0
    }

    pub fn bits(self) -> (r: u32)
        ensures
            r == self.0,
    {
        self.0
    }

    /// The permissions in the `RWX` notation, with `-` for each one that is
    /// missing.
    pub open spec fn permission_text(self) -> Seq<char> {
        seq![
            if self.0 & 0x4 != 0 { 'R' } else { '-' },
            if self.0 & 0x2 != 0 { 'W' } else { '-' },
            if self.0 & 0x1 != 0 { 'X' } else { '-' },
        ]
    }

    /// The permissions in the `RWX` notation, with `-` for each one that is
    /// missing.
    pub fn to_string(self) -> (r: String)
        ensures
            r@ == self.permission_text(),
    {
        proof {
            reveal_strlit("R");
            reveal_strlit("W");
            reveal_strlit("X");
            reveal_strlit("-");
        }
        let mut r = String::new();
        if self.readable() {
            r.append("R");
        } else {
            r.append("-");
        }
        if self.writable() {
            r.append("W");
        } else {
            r.append("-");
        }
        if self.executable() {
            r.append("X");
        } else {
            r.append("-");
        }
        assert(r@ =~= seq![
            if self.0 & 0x4 != 0 { 'R' } else { '-' },
            if self.0 & 0x2 != 0 { 'W' } else { '-' },
            if self.0 & 0x1 != 0 { 'X' } else { '-' },
        ]);
        r
    }

    /// The debugging form: the raw word in hexadecimal, then the
    /// permissions, as in `SegmentFlags(0x5, R-X)`.
    pub open spec fn debug_text(self) -> Seq<char> {
        "SegmentFlags(0x"@ + hex_digits(self.0 as u64) + ", "@ + self.permission_text() + ")"@
    }

    /// The debugging form `SegmentFlags(0x5, R-X)`: the raw word in
    /// lower-case hexadecimal and the permissions in the `RWX` notation.
    pub fn to_debug_string(self) -> (r: String)
        ensures
            r@ == self.debug_text(),
    {
        let mut r = String::new();
        r.append("SegmentFlags(0x");
        push_hex(&mut r, self.0 as u64);
        r.append(", ");
        let perms = self.to_string();
        r.append(perms.as_str());
        r.append(")");
        assert(r@ =~= self.debug_text());
        r
    }
}

impl From<u32> for SegmentFlags {
    fn from(value: u32) -> (r: Self) {
        SegmentFlags(value)
    }
}

impl vstd::std_specs::convert::FromSpecImpl<u32> for SegmentFlags {
    open spec fn obeys_from_spec() -> bool {
        true
    }

    open spec fn from_spec(v: u32) -> Self {
        SegmentFlags(v)
    }
}

// ---------------------------------------------------------------------
// SectionType (sh_type)
// ---------------------------------------------------------------------

/// Kind of a section, named by `sh_type`.
#[derive(Debug, Clone, Copy, PartialEq, Eq, Structural)]
pub enum SectionType {
    Null,
    ProgramBits,
    SymbolTable,
    StringTable,
    Rela,
    Hash,
    Dynamic,
    Note,
    NoBits,
    Rel,
    ShLib,
    DynSym,
    Unknown(u32),
}

/// The section type named by the number `v`.
pub open spec fn section_type_of(v: u32) -> SectionType {
    if v == 0 {
        SectionType::Null
    } else if v == 1 {
        SectionType::ProgramBits
    } else if v == 2 {
        SectionType::SymbolTable
    } else if v == 3 {
        SectionType::StringTable
    } else if v == 4 {
        SectionType::Rela
    } else if v == 5 {
        SectionType::Hash
    } else if v == 6 {
        SectionType::Dynamic
    } else if v == 7 {
        SectionType::Note
    } else if v == 8 {
        SectionType::NoBits
    } else if v == 9 {
        SectionType::Rel
    } else if v == 10 {
        SectionType::ShLib
    } else if v == 11 {
        SectionType::DynSym
    } else {
        SectionType::Unknown(v)
    }
}

impl SectionType {
    /// Decodes the number `value`.
    pub fn from_raw(value: u32) -> (r: Self)
        ensures
            r == section_type_of(value),
    {
        match value {
            0 => SectionType::Null,
            1 => SectionType::ProgramBits,
            2 => SectionType::SymbolTable,
            3 => SectionType::StringTable,
            4 => SectionType::Rela,
            5 => SectionType::Hash,
            6 => SectionType::Dynamic,
            7 => SectionType::Note,
            8 => SectionType::NoBits,
            9 => SectionType::Rel,
            10 => SectionType::ShLib,
            11 => SectionType::DynSym,
            other => SectionType::Unknown(other),
        }
    }
}

impl From<u32> for SectionType {
    fn from(value: u32) -> (r: Self)
        ensures
            r == section_type_of(value),
    {
        SectionType::from_raw(value)
    }
}

impl vstd::std_specs::convert::FromSpecImpl<u32> for SectionType {
    open spec fn obeys_from_spec() -> bool {
        true
    }

    open spec fn from_spec(v: u32) -> Self {
        section_type_of(v)
    }
}

// ---------------------------------------------------------------------
// SectionFlags (sh_flags)
// ---------------------------------------------------------------------

/// The flag bits of a section that this library knows (`SHF_*`).
#[derive(Debug, Clone, Copy, PartialEq, Eq, Structural)]
pub struct SectionFlags(pub u64);

impl SectionFlags {
    pub const WRITE: u64 = 0x1;
    pub const ALLOC: u64 = 0x2;
    pub const EXECINSTR: u64 = 0x4;
    pub const MERGE: u64 = 0x10;
    pub const STRINGS: u64 = 0x20;
    pub const INFO_LINK: u64 = 0x40;
    pub const LINK_ORDER: u64 = 0x80;
    pub const OS_NONCONFORMING: u64 = 0x100;
    pub const GROUP: u64 = 0x200;
    pub const TLS: u64 = 0x400;
    /// Union of every known `SHF_*` bit.
    pub const ALL: u64 = 0x7f7;

    /// The bits held.
    pub open spec fn spec_bits(self) -> u64 {
        self.0
    }

    /// Keeps the known bits of `bits` and drops the others.
    pub fn from_bits_truncate(bits: u64) -> (r: Self)
        ensures
            r.spec_bits() == bits & 0x7f7,
    {
        SectionFlags(bits & SectionFlags::ALL)
    }

    pub fn bits(self) -> (r: u64)
        ensures
            r == self.spec_bits(),
    {
        self.0
    }

    /// True when every bit of `other` is set here.
    pub fn contains(self, other: u64) -> (r: bool)
        ensures
            r == (self.spec_bits() & other == other),
    {
        self.0 & other == other
    }

    /// The names of the known flags set in `self`, in the order in which
    /// the flags are declared, then the unknown bits, if any, as one
    /// hexadecimal number (`WRITE | ALLOC | 0x8`); empty when no bit is set.
    pub open spec fn names_text(self) -> Seq<char> {
        let names = section_flag_names_upto(self.0, 10);
        let extra = self.0 & !0x7f7u64;
        if extra != 0 {
            join_with_bars(names.push("0x"@ + hex_digits(extra)))
        } else {
            join_with_bars(names)
        }
    }

    /// The debugging form: `SectionFlags(WRITE | ALLOC)`, or
    /// `SectionFlags(0x0)` when no bit is set.
    pub open spec fn debug_text(self) -> Seq<char> {
        "SectionFlags("@ + (if self.0 == 0 { "0x0"@ } else { self.names_text() }) + ")"@
    }

    /// The names of the flags set, joined by `" | "`, with the bits that no
    /// flag names written last in hexadecimal.
    pub fn flag_names(self) -> (r: String)
        ensures
            r@ == self.names_text(),
    {
        let mut r = String::new();
        let mut first = true;
        let mut i: usize = 0;
        while i < 10
            invariant
                i <= 10,
                r@ == join_with_bars(section_flag_names_upto(self.0, i as nat)),
                first == (section_flag_names_upto(self.0, i as nat).len() == 0),
            decreases 10 - i,
        {
            let (bit, name) = section_flag_entry(i);
            let ghost before = section_flag_names_upto(self.0, i as nat);
            if self.0 & bit != 0 {
                proof {
                    lemma_join_push(before, name@);
                }
                if !first {
                    r.append(" | ");
                }
                r.append(name);
                first = false;
                assert(r@ =~= join_with_bars(before.push(name@)));
            }
            i = i + 1;
        }
        let extra = self.0 & !SectionFlags::ALL;
        if extra != 0 {
            let ghost before = section_flag_names_upto(self.0, 10);
            let mut hex = String::new();
            hex.append("0x");
            push_hex(&mut hex, extra);
            proof {
                lemma_join_push(before, hex@);
            }
            if !first {
                r.append(" | ");
            }
            r.append(hex.as_str());
            assert(r@ =~= join_with_bars(before.push(hex@)));
        }
        r
    }

    /// The debugging form `SectionFlags(WRITE | ALLOC)`: the names of the
    /// flags set, as `flag_names` writes them, or `0x0` when no bit is set.
    pub fn to_debug_string(self) -> (r: String)
        ensures
            r@ == self.debug_text(),
    {
        let mut r = String::new();
        r.append("SectionFlags(");
        if self.0 == 0 {
            r.append("0x0");
        } else {
            let names = self.flag_names();
            r.append(names.as_str());
        }
        r.append(")");
        assert(r@ =~= self.debug_text());
        r
    }
}

/// The bit of the `i`-th known section flag, in declaration order.
pub open spec fn section_flag_bit(i: int) -> u64 {
    if i == 0 {
        0x1
    } else if i == 1 {
        0x2
    } else if i == 2 {
        0x4
    } else if i == 3 {
        0x10
    } else if i == 4 {
        0x20
    } else if i == 5 {
        0x40
    } else if i == 6 {
        0x80
    } else if i == 7 {
        0x100
    } else if i == 8 {
        0x200
    } else {
        0x400
    }
}

/// The name of the `i`-th known section flag, in declaration order.
pub open spec fn section_flag_name(i: int) -> Seq<char> {
    if i == 0 {
        "WRITE"@
    } else if i == 1 {
        "ALLOC"@
    } else if i == 2 {
        "EXECINSTR"@
    } else if i == 3 {
        "MERGE"@
    } else if i == 4 {
        "STRINGS"@
    } else if i == 5 {
        "INFO_LINK"@
    } else if i == 6 {
        "LINK_ORDER"@
    } else if i == 7 {
        "OS_NONCONFORMING"@
    } else if i == 8 {
        "GROUP"@
    } else {
        "TLS"@
    }
}

/// The names of those of the first `n` known flags that are set in `bits`,
/// in declaration order.
pub open spec fn section_flag_names_upto(bits: u64, n: nat) -> Seq<Seq<char>>
    decreases n,
{
    if n == 0 {
        Seq::empty()
    } else {
        let before = section_flag_names_upto(bits, (n - 1) as nat);
        if bits & section_flag_bit(n - 1) != 0 {
            before.push(section_flag_name(n - 1))
        } else {
            before
        }
    }
}

fn section_flag_entry(i: usize) -> (r: (u64, &'static str))
    requires
        i < 10,
    ensures
        r.0 == section_flag_bit(i as int),
        r.1@ == section_flag_name(i as int),
{
    match i {
        0 => (SectionFlags::WRITE, "WRITE"),
        1 => (SectionFlags::ALLOC, "ALLOC"),
        2 => (SectionFlags::EXECINSTR, "EXECINSTR"),
        3 => (SectionFlags::MERGE, "MERGE"),
        4 => (SectionFlags::STRINGS, "STRINGS"),
        5 => (SectionFlags::INFO_LINK, "INFO_LINK"),
        6 => (SectionFlags::LINK_ORDER, "LINK_ORDER"),
        7 => (SectionFlags::OS_NONCONFORMING, "OS_NONCONFORMING"),
        8 => (SectionFlags::GROUP, "GROUP"),
        _ => (SectionFlags::TLS, "TLS"),
    }
}

// ---------------------------------------------------------------------
// SymbolBinding (high nibble of st_info)
// ---------------------------------------------------------------------

/// Binding of a symbol, the high four bits of `st_info`.
#[derive(Debug, Clone, Copy, PartialEq, Eq, Structural)]
pub enum SymbolBinding {
    Local,
    Global,
    Weak,
    OsSpecific(u8),
    ProcessorSpecific(u8),
    Unknown(u8),
}

/// The binding named by the number `v`.
pub open spec fn symbol_binding_of(v: u8) -> SymbolBinding {
    if v == 0 {
        SymbolBinding::Local
    } else if v == 1 {
        SymbolBinding::Global
    } else if v == 2 {
        SymbolBinding::Weak
    } else if 10 <= v <= 12 {
        SymbolBinding::OsSpecific(v)
    } else if 13 <= v <= 15 {
        SymbolBinding::ProcessorSpecific(v)
    } else {
        SymbolBinding::Unknown(v)
    }
}

impl SymbolBinding {
    /// Decodes the number `value`.
    pub fn from_raw(value: u8) -> (r: Self)
        ensures
            r == symbol_binding_of(value),
    {
        match value {
            0 => Self::Local,
            1 => Self::Global,
            2 => Self::Weak,
            10..=12 => Self::OsSpecific(value),
            13..=15 => Self::ProcessorSpecific(value),
            other => Self::Unknown(other),
        }
    }
}

impl From<u8> for SymbolBinding {
    fn from(value: u8) -> (r: Self)
        ensures
            r == symbol_binding_of(value),
    {
        SymbolBinding::from_raw(value)
    }
}

impl vstd::std_specs::convert::FromSpecImpl<u8> for SymbolBinding {
    open spec fn obeys_from_spec() -> bool {
        true
    }

    open spec fn from_spec(v: u8) -> Self {
        symbol_binding_of(v)
    }
}

// ---------------------------------------------------------------------
// SymbolType (low nibble of st_info)
// ---------------------------------------------------------------------

/// Type of a symbol, the low four bits of `st_info`.
#[derive(Debug, Clone, Copy, PartialEq, Eq, Structural)]
pub enum SymbolType {
    NoType,
    Object,
    Function,
    Section,
    File,
    Common,
    Tls,
    OsSpecific(u8),
    ProcessorSpecific(u8),
    Unknown(u8),
}

/// The symbol type named by the number `v`.
pub open spec fn symbol_type_of(v: u8) -> SymbolType {
    if v == 0 {
        SymbolType::NoType
    } else if v == 1 {
        SymbolType::Object
    } else if v == 2 {
        SymbolType::Function
    } else if v == 3 {
        SymbolType::Section
    } else if v == 4 {
        SymbolType::File
    } else if v == 5 {
        SymbolType::Common
    } else if v == 6 {
        SymbolType::Tls
    } else if 10 <= v <= 12 {
        SymbolType::OsSpecific(v)
    } else if 13 <= v <= 15 {
        SymbolType::ProcessorSpecific(v)
    } else {
        SymbolType::Unknown(v)
    }
}

impl SymbolType {
    /// Decodes the number `value`.
    pub fn from_raw(value: u8) -> (r: Self)
        ensures
            r == symbol_type_of(value),
    {
        match value {
            0 => Self::NoType,
            1 => Self::Object,
            2 => Self::Function,
            3 => Self::Section,
            4 => Self::File,
            5 => Self::Common,
            6 => Self::Tls,
            10..=12 => Self::OsSpecific(value),
            13..=15 => Self::ProcessorSpecific(value),
            other => Self::Unknown(other),
        }
    }
}

impl From<u8> for SymbolType {
    fn from(value: u8) -> (r: Self)
        ensures
            r == symbol_type_of(value),
    {
        SymbolType::from_raw(value)
    }
}

impl vstd::std_specs::convert::FromSpecImpl<u8> for SymbolType {
    open spec fn obeys_from_spec() -> bool {
        true
    }

    open spec fn from_spec(v: u8) -> Self {
        symbol_type_of(v)
    }
}

// ---------------------------------------------------------------------
// DynamicTag (d_tag)
// ---------------------------------------------------------------------

/// Tag of an entry of the dynamic section (`DT_*`).
#[derive(Debug, Clone, Copy, PartialEq, Eq, Structural)]
pub enum DynamicTag {
    Null,
    Needed,
    PltRelSize,
    PltGot,
    Hash,
    StrTab,
    SymTab,
    Rela,
    RelaSize,
    RelaEnt,
    StrSize,
    SymEnt,
    Init,
    Fini,
    SoName,
    RPath,
    Symbolic,
    Rel,
    RelSize,
    RelEnt,
    PltRel,
    Debug,
    TextRel,
    JmpRel,
    BindNow,
    InitArray,
    FiniArray,
    InitArraySize,
    FiniArraySize,
    RunPath,
    Flags,
    Unknown(i64),
}

/// The tag named by the number `v`.
pub open spec fn dynamic_tag_of(v: i64) -> DynamicTag {
    if v == 0 {
        DynamicTag::Null
    } else if v == 1 {
        DynamicTag::Needed
    } else if v == 2 {
        DynamicTag::PltRelSize
    } else if v == 3 {
        DynamicTag::PltGot
    } else if v == 4 {
        DynamicTag::Hash
    } else if v == 5 {
        DynamicTag::StrTab
    } else if v == 6 {
        DynamicTag::SymTab
    } else if v == 7 {
        DynamicTag::Rela
    } else if v == 8 {
        DynamicTag::RelaSize
    } else if v == 9 {
        DynamicTag::RelaEnt
    } else if v == 10 {
        DynamicTag::StrSize
    } else if v == 11 {
        DynamicTag::SymEnt
    } else if v == 12 {
        DynamicTag::Init
    } else if v == 13 {
        DynamicTag::Fini
    } else if v == 14 {
        DynamicTag::SoName
    } else if v == 15 {
        DynamicTag::RPath
    } else if v == 16 {
        DynamicTag::Symbolic
    } else if v == 17 {
        DynamicTag::Rel
    } else if v == 18 {
        DynamicTag::RelSize
    } else if v == 19 {
        DynamicTag::RelEnt
    } else if v == 20 {
        DynamicTag::PltRel
    } else if v == 21 {
        DynamicTag::Debug
    } else if v == 22 {
        DynamicTag::TextRel
    } else if v == 23 {
        DynamicTag::JmpRel
    } else if v == 24 {
        DynamicTag::BindNow
    } else if v == 25 {
        DynamicTag::InitArray
    } else if v == 26 {
        DynamicTag::FiniArray
    } else if v == 27 {
        DynamicTag::InitArraySize
    } else if v == 28 {
        DynamicTag::FiniArraySize
    } else if v == 29 {
        DynamicTag::RunPath
    } else if v == 30 {
        DynamicTag::Flags
    } else {
        DynamicTag::Unknown(v)
    }
}

impl DynamicTag {
    /// Decodes the number `value`.
    pub fn from_raw(value: i64) -> (r: Self)
        ensures
            r == dynamic_tag_of(value),
    {
        match value {
            0 => DynamicTag::Null,
            1 => DynamicTag::Needed,
            2 => DynamicTag::PltRelSize,
            3 => DynamicTag::PltGot,
            4 => DynamicTag::Hash,
            5 => DynamicTag::StrTab,
            6 => DynamicTag::SymTab,
            7 => DynamicTag::Rela,
            8 => DynamicTag::RelaSize,
            9 => DynamicTag::RelaEnt,
            10 => DynamicTag::StrSize,
            11 => DynamicTag::SymEnt,
            12 => DynamicTag::Init,
            13 => DynamicTag::Fini,
            14 => DynamicTag::SoName,
            15 => DynamicTag::RPath,
            16 => DynamicTag::Symbolic,
            17 => DynamicTag::Rel,
            18 => DynamicTag::RelSize,
            19 => DynamicTag::RelEnt,
            20 => DynamicTag::PltRel,
            21 => DynamicTag::Debug,
            22 => DynamicTag::TextRel,
            23 => DynamicTag::JmpRel,
            24 => DynamicTag::BindNow,
            25 => DynamicTag::InitArray,
            26 => DynamicTag::FiniArray,
            27 => DynamicTag::InitArraySize,
            28 => DynamicTag::FiniArraySize,
            29 => DynamicTag::RunPath,
            30 => DynamicTag::Flags,
            other => DynamicTag::Unknown(other),
        }
    }
}

impl From<i64> for DynamicTag {
    fn from(value: i64) -> (r: Self)
        ensures
            r == dynamic_tag_of(value),
    {
        DynamicTag::from_raw(value)
    }
}

impl vstd::std_specs::convert::FromSpecImpl<i64> for DynamicTag {
    open spec fn obeys_from_spec() -> bool {
        true
    }

    open spec fn from_spec(v: i64) -> Self {
        dynamic_tag_of(v)
    }
}

// ---------------------------------------------------------------------
// RelocationType (low word of r_info)
// ---------------------------------------------------------------------

/// Type of a relocation, kept as its number: its meaning depends on the
/// machine.
#[derive(Debug, Clone, Copy, PartialEq, Eq, Structural)]
pub struct RelocationType(pub u32);

impl From<u32> for RelocationType {
    fn from(value: u32) -> (r: Self) {
        RelocationType(value)
    }
}

impl vstd::std_specs::convert::FromSpecImpl<u32> for RelocationType {
    open spec fn obeys_from_spec() -> bool {
        true
    }

    open spec fn from_spec(v: u32) -> Self {
        RelocationType(v)
    }
}

} // verus!
