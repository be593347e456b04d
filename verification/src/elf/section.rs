use vstd::prelude::*;

use super::collect::{collect, lemma_collect_err_stable};
use super::enums::{SectionFlags, SectionType, section_type_of};
use super::error::ElfError;
use super::header::{ElfHeader, HeaderModel};
use super::raw::{RawSectionHeader, SectionHeaderFields};

verus! {

/// A section header, in a form that does not depend on the word size.
#[derive(Debug, Clone, Copy)]
pub struct ElfSectionHeader {
    pub name_offset: u32,
    pub section_type: SectionType,
    pub flags: SectionFlags,
    pub virtual_address: u64,
    pub file_offset: u64,
    pub size: u64,
    pub link: u32,
    pub info: u32,
    pub alignment: u64,
    pub entry_size: u64,
}

/// The section header that the raw fields `f` describe.
pub open spec fn section_header_model(f: SectionHeaderFields) -> ElfSectionHeader {
    ElfSectionHeader {
        name_offset: f.sh_name,
        section_type: section_type_of(f.sh_type),
        flags: SectionFlags(f.sh_flags & 0x7f7),
        virtual_address: f.sh_addr,
        file_offset: f.sh_offset,
        size: f.sh_size,
        link: f.sh_link,
        info: f.sh_info,
        alignment: f.sh_addralign,
        entry_size: f.sh_entsize,
    }
}

impl ElfSectionHeader {
    pub(crate) fn from<T: RawSectionHeader>(raw: &T) -> (r: Self)
        ensures
            r == section_header_model(raw.fields()),
    {
        Self {
            name_offset: raw.name_offset(),
            section_type: raw.section_type(),
            flags: raw.flags(),
            virtual_address: raw.virtual_address(),
            file_offset: raw.file_offset(),
            size: raw.size(),
            link: raw.link(),
            info: raw.info(),
            alignment: raw.alignment(),
            entry_size: raw.entry_size(),
        }
    }

    pub fn name_offset(&self) -> (r: u32)
        ensures
            r == self.name_offset,
    {
        self.name_offset
    }

    pub fn section_type(&self) -> (r: SectionType)
        ensures
            r == self.section_type,
    {
        self.section_type
    }

    pub fn flags(&self) -> (r: SectionFlags)
        ensures
            r == self.flags,
    {
        self.flags
    }

    pub fn virtual_address(&self) -> (r: u64)
        ensures
            r == self.virtual_address,
    {
        self.virtual_address
    }

    pub fn file_offset(&self) -> (r: u64)
        ensures
            r == self.file_offset,
    {
        self.file_offset
    }

    pub fn size(&self) -> (r: u64)
        ensures
            r == self.size,
    {
        self.size
    }

    pub fn link(&self) -> (r: u32)
        ensures
            r == self.link,
    {
        self.link
    }

    pub fn info(&self) -> (r: u32)
        ensures
            r == self.info,
    {
        self.info
    }

    pub fn alignment(&self) -> (r: u64)
        ensures
            r == self.alignment,
    {
        self.alignment
    }

    pub fn entry_size(&self) -> (r: u64)
        ensures
            r == self.entry_size,
    {
        self.entry_size
    }
}

/// The abstract content of an [`ElfSection`]: its header, its name once
/// resolved, and the bytes of the file that it holds.
pub struct SectionModel {
    pub header: ElfSectionHeader,
    pub name: Option<Seq<char>>,
    pub data: Seq<u8>,
}

/// A section header together with its name and the bytes it holds.
#[derive(Clone, Copy)]
pub struct ElfSection<'a> {
    header: ElfSectionHeader,
    name: Option<&'a str>,
    data: &'a [u8],
}

impl<'a> DeepView for ElfSection<'a> {
    type V = SectionModel;

    closed spec fn deep_view(&self) -> SectionModel {
        SectionModel { header: self.header, name: self.name.deep_view(), data: self.data@ }
    }
}

/// The sections of `sections` whose type is `ty`, in their order.
pub open spec fn sections_of_type(sections: Seq<SectionModel>, ty: SectionType) -> Seq<
    SectionModel,
> {
    sections.filter(|s: SectionModel| s.header.section_type == ty)
}

impl<'a> ElfSection<'a> {
    pub(crate) fn new(header: ElfSectionHeader, data: &'a [u8]) -> (r: Self)
        ensures
            r.deep_view() == (SectionModel { header, name: None, data: data@ }),
    {
        Self { header, name: None, data }
    }

    pub fn header(&self) -> (r: &ElfSectionHeader)
        ensures
            *r == self.deep_view().header,
    {
        &self.header
    }

    pub fn name(&self) -> (r: Option<&str>)
        ensures
            r.deep_view() == self.deep_view().name,
    {
        self.name
    }

    pub fn data(&self) -> (r: &'a [u8])
        ensures
            r@ == self.deep_view().data,
    {
        self.data
    }

    pub(crate) fn set_name(&mut self, name: &'a str)
        ensures
            final(self).deep_view() == (SectionModel {
                header: old(self).deep_view().header,
                name: Some(name@),
                data: old(self).deep_view().data,
            }),
    {
        self.name = Some(name);
    }

    /// The section that `sh_link` names, if `sections` has one at that index.
    pub fn linked_section<'b>(&self, sections: &'b [ElfSection<'a>]) -> (r: Option<
        &'b ElfSection<'a>,
    >)
        ensures
            r is Some <==> self.deep_view().header.link < sections@.len(),
            r matches Some(s) ==> *s == sections@[self.deep_view().header.link as int],
    {
        let index = self.link() as usize;
        if index < sections.len() {
            Some(&sections[index])
        } else {
            None
        }
    }

    pub fn name_offset(&self) -> (r: u32)
        ensures
            r == self.deep_view().header.name_offset,
    {
        self.header.name_offset()
    }

    pub fn section_type(&self) -> (r: SectionType)
        ensures
            r == self.deep_view().header.section_type,
    {
        self.header.section_type()
    }

    pub fn virtual_address(&self) -> (r: u64)
        ensures
            r == self.deep_view().header.virtual_address,
    {
        self.header.virtual_address()
    }

    pub fn file_offset(&self) -> (r: u64)
        ensures
            r == self.deep_view().header.file_offset,
    {
        self.header.file_offset()
    }

    pub fn size(&self) -> (r: u64)
        ensures
            r == self.deep_view().header.size,
    {
        self.header.size()
    }

    pub fn link(&self) -> (r: u32)
        ensures
            r == self.deep_view().header.link,
    {
        self.header().link()
    }

    pub fn flags(&self) -> (r: SectionFlags)
        ensures
            r == self.deep_view().header.flags,
    {
        self.header.flags()
    }

    pub fn alignment(&self) -> (r: u64)
        ensures
            r == self.deep_view().header.alignment,
    {
        self.header.alignment()
    }

    pub fn entry_size(&self) -> (r: u64)
        ensures
            r == self.deep_view().header.entry_size,
    {
        self.header.entry_size()
    }
}

/// The `i`-th section of the image `b` whose header is `h`: its header is
/// read at `e_shoff + i * e_shentsize` with layout `T`; its data is the range
/// `[sh_offset, sh_offset + sh_size)` of `b`, or nothing for a `NoBits`
/// section, which occupies no room in the file.
pub open spec fn section_at<T: RawSectionHeader>(b: Seq<u8>, h: HeaderModel, i: int) -> Result<
    SectionModel,
    ElfError,
> {
    let start = h.section_header_offset + i * h.section_header_size;
    if start > b.len() {
        Err(ElfError::InvalidOffset)
    } else if b.len() - start < T::encoded_size() {
        Err(ElfError::UnexpectedEOF)
    } else {
        let sh = section_header_model(T::decode(b.subrange(start, b.len() as int)));
        if sh.section_type == SectionType::NoBits {
            Ok(SectionModel { header: sh, name: None, data: Seq::empty() })
        } else if sh.file_offset + sh.size > b.len() {
            Err(ElfError::InvalidOffset)
        } else {
            Ok(
                SectionModel {
                    header: sh,
                    name: None,
                    data: b.subrange(sh.file_offset as int, sh.file_offset + sh.size),
                },
            )
        }
    }
}

/// The sections that `parse_sections::<T>` reads: all `e_shnum` of them,
/// still unnamed, or the error of the first one that cannot be read.
pub open spec fn spec_parse_sections<T: RawSectionHeader>(b: Seq<u8>, h: HeaderModel) -> Result<
    Seq<SectionModel>,
    ElfError,
> {
    collect(h.section_header_count as nat, |i: int| section_at::<T>(b, h, i))
}

/// Reads the section headers that `header` announces, with layout `T`, and
/// the bytes that each section holds.
pub fn parse_sections<'a, T: RawSectionHeader>(bytes: &'a [u8], header: &ElfHeader) -> (r: Result<
    Vec<ElfSection<'a>>,
    ElfError,
>)
    ensures
        super::header::result_view(r) == spec_parse_sections::<T>(bytes@, header.deep_view()),
{
    let ghost h = header.deep_view();
    let ghost f = |i: int| section_at::<T>(bytes@, h, i);
    let count = header.section_header_count();
    let offset = header.section_header_offset();
    let entsize = header.section_header_size() as u64;
    let len = bytes.len() as u64;
    let mut sections: Vec<ElfSection<'a>> = Vec::new();
    let mut i: u16 = 0;
    assert(sections.deep_view() =~= Seq::<SectionModel>::empty());
    while i < count
        invariant
            h == header.deep_view(),
            f == (|i: int| section_at::<T>(bytes@, h, i)),
            count == h.section_header_count,
            offset == h.section_header_offset,
            entsize == h.section_header_size,
            len == bytes@.len(),
            i <= count,
            collect(i as nat, f) == Ok::<Seq<SectionModel>, ElfError>(sections.deep_view()),
        decreases count - i,
    {
        proof {
            assert((i as int) * (entsize as int) <= 0xffff * 0xffff) by (nonlinear_arith)
                requires
                    0 <= i <= 0xffff,
                    0 <= entsize <= 0xffff,
            ;
        }
        let step = (i as u64) * entsize;
        let start = match offset.checked_add(step) {
            Some(s) => s,
            None => {
                proof {
                    lemma_collect_err_stable(f, (i + 1) as nat, count as nat);
                }
                return Err(ElfError::InvalidOffset);
            },
        };
        if start > len {
            proof {
                lemma_collect_err_stable(f, (i + 1) as nat, count as nat);
            }
            return Err(ElfError::InvalidOffset);
        }
        let rest = &bytes[start as usize..bytes.len()];
        let raw = match T::from_bytes(rest) {
            Ok(raw) => raw,
            Err(e) => {
                proof {
                    lemma_collect_err_stable(f, (i + 1) as nat, count as nat);
                }
                return Err(e);
            },
        };
        let sh = ElfSectionHeader::from(&raw);
        let data: &'a [u8] = if sh.section_type() == SectionType::NoBits {
            &bytes[0..0]
        } else {
            let data_offset = sh.file_offset();
            let data_size = sh.size();
            let data_end = match data_offset.checked_add(data_size) {
                Some(e) => e,
                None => {
                    proof {
                        lemma_collect_err_stable(f, (i + 1) as nat, count as nat);
                    }
                    return Err(ElfError::InvalidOffset);
                },
            };
            if data_end > len {
                proof {
                    lemma_collect_err_stable(f, (i + 1) as nat, count as nat);
                }
                return Err(ElfError::InvalidOffset);
            }
            &bytes[data_offset as usize..data_end as usize]
        };
        let section = ElfSection::new(sh, data);
        let ghost old_view = sections.deep_view();
        sections.push(section);
        proof {
            assert(section.deep_view().data =~= f(i as int)->Ok_0.data);
            assert(sections.deep_view() =~= old_view.push(section.deep_view()));
        }
        i = i + 1;
    }
    Ok(sections)
}

} // verus!
