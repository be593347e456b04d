use vstd::prelude::*;

verus! {

/// `SHN_XINDEX`: the value of `e_shstrndx` meaning that the real index of the
/// section name table is kept in the `sh_link` field of section 0.
pub const SHN_XINDEX: u32 = 0xffff;

} // verus!
