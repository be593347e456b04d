//! NUL-terminated strings stored in string tables.
use vstd::prelude::*;
use vstd::string::StringSliceAdditionalSpecFns;
use vstd::utf8::{decode_utf8, valid_utf8};

use super::error::ElfError;

verus! {

/// The index of the first NUL byte of `t` at or after `i`, if any.
pub open spec fn first_nul_from(t: Seq<u8>, i: int) -> Option<int>
    decreases t.len() - i,
{
    if i < 0 || i >= t.len() {
        None
    } else if t[i] == 0 {
        Some(i)
    } else {
        first_nul_from(t, i + 1)
    }
}

/// The string that starts at `offset` of the string table `t` and ends
/// before the next NUL byte, decoded as UTF-8.
pub open spec fn spec_get_string(t: Seq<u8>, offset: u32) -> Result<Seq<char>, ElfError> {
    if offset >= t.len() {
        Err(ElfError::InvalidStringOffset)
    } else {
        match first_nul_from(t, offset as int) {
            None => Err(ElfError::InvalidString),
            Some(end) => if valid_utf8(t.subrange(offset as int, end)) {
                Ok(decode_utf8(t.subrange(offset as int, end)))
            } else {
                Err(ElfError::InvalidString)
            },
        }
    }
}

/// The value a `Result` holds, if it holds one.
pub open spec fn ok_of<A>(r: Result<A, ElfError>) -> Option<A> {
    match r {
        Ok(a) => Some(a),
        Err(_) => None,
    }
}

/// `std::str::from_utf8`: the documentation of std says that it returns the
/// string slice made of the given bytes when they are valid UTF-8, and an
/// error otherwise. This claims that `valid_utf8` (vstd's statement of the
/// UTF-8 standard) is the test it makes.
#[verifier::external_body]
fn str_from_utf8<'a>(v: &'a [u8]) -> (r: Option<&'a str>)
    ensures
        r is Some <==> valid_utf8(v@),
        r matches Some(s) ==> s.spec_bytes() == v@,
{
    std::str::from_utf8(v).ok()
}

/// Reads the NUL-terminated string at `offset` of the string table `table`.
pub fn get_string(table: &[u8], offset: u32) -> (r: Result<&str, ElfError>)
    ensures
        match r {
            Ok(s) => spec_get_string(table@, offset) == Ok::<Seq<char>, ElfError>(s@),
            Err(e) => spec_get_string(table@, offset) == Err::<Seq<char>, ElfError>(e),
        },
{
    let offset = offset as usize;

    if offset >= table.len() {
        return Err(ElfError::InvalidStringOffset);
    }

    let mut end = offset;
    while end < table.len() && table[end] != 0
        invariant
            offset <= end <= table@.len(),
            offset < table@.len(),
            first_nul_from(table@, offset as int) == first_nul_from(table@, end as int),
        decreases table@.len() - end,
    {
        end = end + 1;
    }

    if end == table.len() {
        return Err(ElfError::InvalidString);
    }
    let bytes = &table[offset..end];
    match str_from_utf8(bytes) {
        Some(s) => {
            proof {
                vstd::utf8::encode_utf8_decode_utf8(s@);
            }
            Ok(s)
        },
        None => Err(ElfError::InvalidString),
    }
}

} // verus!
