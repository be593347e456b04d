use vstd::prelude::*;

use super::collect::{collect, lemma_collect_err_stable};
use super::enums::{SegmentFlags, SegmentType, segment_type_of};
use super::error::ElfError;
use super::header::{ElfHeader, HeaderModel};
use super::raw::{ProgramHeaderFields, RawProgramHeader};

verus! {

/// The abstract content of an [`ElfProgramHeader`].
pub struct ProgramHeaderModel {
    pub segment_type: SegmentType,
    pub file_offset: u64,
    pub virtual_address: u64,
    pub physical_address: u64,
    pub file_size: u64,
    pub memory_size: u64,
    pub flags: SegmentFlags,
    pub alignment: u64,
}

/// The program header that the raw fields `f` describe.
pub open spec fn program_header_model(f: ProgramHeaderFields) -> ProgramHeaderModel {
    ProgramHeaderModel {
        segment_type: segment_type_of(f.p_type),
        file_offset: f.p_offset,
        virtual_address: f.p_vaddr,
        physical_address: f.p_paddr,
        file_size: f.p_filesz,
        memory_size: f.p_memsz,
        flags: SegmentFlags(f.p_flags),
        alignment: f.p_align,
    }
}

/// A program header, in a form that does not depend on the word size.
pub struct ElfProgramHeader {
    segment_type: SegmentType,
    file_offset: u64,
    virt_address: u64,
    phys_address: u64,
    file_size: u64,
    memory_size: u64,
    flags: SegmentFlags,
    alignment: u64,
}

impl DeepView for ElfProgramHeader {
    type V = ProgramHeaderModel;

    closed spec fn deep_view(&self) -> ProgramHeaderModel {
        ProgramHeaderModel {
            segment_type: self.segment_type,
            file_offset: self.file_offset,
            virtual_address: self.virt_address,
            physical_address: self.phys_address,
            file_size: self.file_size,
            memory_size: self.memory_size,
            flags: self.flags,
            alignment: self.alignment,
        }
    }
}

impl ElfProgramHeader {
    pub(crate) fn from<T: RawProgramHeader>(raw: &T) -> (r: Self)
        ensures
            r.deep_view() == program_header_model(raw.fields()),
    {
        Self {
            segment_type: raw.segment_type(),
            file_offset: raw.file_offset(),
            virt_address: raw.virtual_address(),
            phys_address: raw.physical_address(),
            file_size: raw.file_size(),
            memory_size: raw.memory_size(),
            flags: raw.flags(),
            alignment: raw.alignment(),
        }
    }

    pub fn segment_type(&self) -> (r: SegmentType)
        ensures
            r == self.deep_view().segment_type,
    {
        self.segment_type
    }

    pub fn file_offset(&self) -> (r: u64)
        ensures
            r == self.deep_view().file_offset,
    {
        self.file_offset
    }

    pub fn virtual_address(&self) -> (r: u64)
        ensures
            r == self.deep_view().virtual_address,
    {
        self.virt_address
    }

    pub fn physical_address(&self) -> (r: u64)
        ensures
            r == self.deep_view().physical_address,
    {
        self.phys_address
    }

    pub fn file_size(&self) -> (r: u64)
        ensures
            r == self.deep_view().file_size,
    {
        self.file_size
    }

    pub fn memory_size(&self) -> (r: u64)
        ensures
            r == self.deep_view().memory_size,
    {
        self.memory_size
    }

    pub fn flags(&self) -> (r: SegmentFlags)
        ensures
            r == self.deep_view().flags,
    {
        self.flags
    }

    pub fn alignment(&self) -> (r: u64)
        ensures
            r == self.deep_view().alignment,
    {
        self.alignment
    }
}

/// The abstract content of an [`ElfSegment`]: its header and the bytes of
/// the file that it covers.
pub struct SegmentModel {
    pub header: ProgramHeaderModel,
    pub data: Seq<u8>,
}

/// A program header together with the bytes of the file that it covers.
pub struct ElfSegment<'a> {
    header: ElfProgramHeader,
    data: &'a [u8],
}

impl<'a> DeepView for ElfSegment<'a> {
    type V = SegmentModel;

    closed spec fn deep_view(&self) -> SegmentModel {
        SegmentModel { header: self.header.deep_view(), data: self.data@ }
    }
}

impl<'a> ElfSegment<'a> {
    pub(crate) fn new(header: ElfProgramHeader, data: &'a [u8]) -> (r: Self)
        ensures
            r.deep_view() == (SegmentModel { header: header.deep_view(), data: data@ }),
    {
        Self { header, data }
    }

    pub fn header(&self) -> (r: &ElfProgramHeader)
        ensures
            r.deep_view() == self.deep_view().header,
    {
        &self.header
    }

    pub fn data(&self) -> (r: &'a [u8])
        ensures
            r@ == self.deep_view().data,
    {
        self.data
    }

    /// True when `addr` lies in the memory image of the segment,
    /// `[virtual_address, virtual_address + memory_size)`.
    pub fn contains_address(&self, addr: u64) -> (r: bool)
        ensures
            r == (self.deep_view().header.virtual_address <= addr
                < self.deep_view().header.virtual_address
                + self.deep_view().header.memory_size),
    {
        let start = self.virtual_address();
        addr >= start && addr - start < self.memory_size()
    }

    pub fn segment_type(&self) -> (r: SegmentType)
        ensures
            r == self.deep_view().header.segment_type,
    {
        self.header().segment_type
    }

    pub fn file_offset(&self) -> (r: u64)
        ensures
            r == self.deep_view().header.file_offset,
    {
        self.header().file_offset
    }

    pub fn virtual_address(&self) -> (r: u64)
        ensures
            r == self.deep_view().header.virtual_address,
    {
        self.header().virt_address
    }

    pub fn physical_address(&self) -> (r: u64)
        ensures
            r == self.deep_view().header.physical_address,
    {
        self.header().phys_address
    }

    pub fn file_size(&self) -> (r: u64)
        ensures
            r == self.deep_view().header.file_size,
    {
        self.header().file_size
    }

    pub fn memory_size(&self) -> (r: u64)
        ensures
            r == self.deep_view().header.memory_size,
    {
        self.header().memory_size
    }

    pub fn flags(&self) -> (r: SegmentFlags)
        ensures
            r == self.deep_view().header.flags,
    {
        self.header().flags
    }

    pub fn alignment(&self) -> (r: u64)
        ensures
            r == self.deep_view().header.alignment,
    {
        self.header().alignment
    }
}

/// The `i`-th segment of the image `b` whose header is `h`: its program
/// header is read at `e_phoff + i * e_phentsize` with layout `T`, and its
/// data is the range `[p_offset, p_offset + p_filesz)` of `b`.
pub open spec fn segment_at<T: RawProgramHeader>(b: Seq<u8>, h: HeaderModel, i: int) -> Result<
    SegmentModel,
    ElfError,
> {
    let start = h.program_header_offset + i * h.program_header_size;
    if start > b.len() {
        Err(ElfError::InvalidOffset)
    } else if b.len() - start < T::encoded_size() {
        Err(ElfError::UnexpectedEOF)
    } else {
        let ph = program_header_model(T::decode(b.subrange(start, b.len() as int)));
        if ph.file_offset + ph.file_size > b.len() {
            Err(ElfError::InvalidOffset)
        } else {
            Ok(
                SegmentModel {
                    header: ph,
                    data: b.subrange(ph.file_offset as int, ph.file_offset + ph.file_size),
                },
            )
        }
    }
}

/// The segments that `parse_segments::<T>` reads: all `e_phnum` of them, or
/// the error of the first one that cannot be read.
pub open spec fn spec_parse_segments<T: RawProgramHeader>(b: Seq<u8>, h: HeaderModel) -> Result<
    Seq<SegmentModel>,
    ElfError,
> {
    collect(h.program_header_count as nat, |i: int| segment_at::<T>(b, h, i))
}

/// Reads the program headers that `header` announces, with layout `T`, and
/// the bytes that each segment covers.
pub fn parse_segments<'a, T: RawProgramHeader>(bytes: &'a [u8], header: &ElfHeader) -> (r: Result<
    Vec<ElfSegment<'a>>,
    ElfError,
>)
    ensures
        super::header::result_view(r) == spec_parse_segments::<T>(bytes@, header.deep_view()),
{
    let ghost h = header.deep_view();
    let ghost f = |i: int| segment_at::<T>(bytes@, h, i);
    let count = header.program_header_count();
    let offset = header.program_header_offset();
    let entsize = header.program_header_size() as u64;
    let len = bytes.len() as u64;
    let mut segments: Vec<ElfSegment<'a>> = Vec::new();
    let mut i: u16 = 0;
    assert(segments.deep_view() =~= Seq::<SegmentModel>::empty());
    while i < count
        invariant
            h == header.deep_view(),
            f == (|i: int| segment_at::<T>(bytes@, h, i)),
            count == h.program_header_count,
            offset == h.program_header_offset,
            entsize == h.program_header_size,
            len == bytes@.len(),
            i <= count,
            collect(i as nat, f) == Ok::<Seq<SegmentModel>, ElfError>(segments.deep_view()),
        decreases count - i,
    {
        proof {
            assert((i as int) * (entsize as int) <= 0xffff * 0xffff) by (nonlinear_arith)
                requires
                    0 <= i <= 0xffff,
                    0 <= entsize <= 0xffff,
            ;
        }
        let step = (i as u64) * entsize;
        let start = match offset.checked_add(step) {
            Some(s) => s,
            None => {
                proof {
                    lemma_collect_err_stable(f, (i + 1) as nat, count as nat);
                }
                return Err(ElfError::InvalidOffset);
            },
        };
        if start > len {
            proof {
                lemma_collect_err_stable(f, (i + 1) as nat, count as nat);
            }
            return Err(ElfError::InvalidOffset);
        }
        let rest = &bytes[start as usize..bytes.len()];
        let raw = match T::from_bytes(rest) {
            Ok(raw) => raw,
            Err(e) => {
                proof {
                    lemma_collect_err_stable(f, (i + 1) as nat, count as nat);
                }
                return Err(e);
            },
        };
        let ph = ElfProgramHeader::from(&raw);
        let data_offset = ph.file_offset();
        let data_size = ph.file_size();
        let data_end = match data_offset.checked_add(data_size) {
            Some(e) => e,
            None => {
                proof {
                    lemma_collect_err_stable(f, (i + 1) as nat, count as nat);
                }
                return Err(ElfError::InvalidOffset);
            },
        };
        if data_end > len {
            proof {
                lemma_collect_err_stable(f, (i + 1) as nat, count as nat);
            }
            return Err(ElfError::InvalidOffset);
        }
        let data = &bytes[data_offset as usize..data_end as usize];
        let segment = ElfSegment::new(ph, data);
        let ghost old_view = segments.deep_view();
        segments.push(segment);
        proof {
            assert(segments.deep_view() =~= old_view.push(segment.deep_view()));
        }
        i = i + 1;
    }
    Ok(segments)
}

} // verus!
