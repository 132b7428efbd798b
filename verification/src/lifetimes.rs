//! A borrowed result whose validity is tied to the inputs it was chosen from.

use vstd::prelude::*;
use vstd::string::*;
use crate::text::byte_len;

verus! {

/// The longer of two strings, together with its length in bytes.
pub struct LongestStr<'a> {
    pub value: &'a str,
    pub length: usize,
}

impl<'a> LongestStr<'a> {
    /// The recorded length is that of the recorded string.
    pub open spec fn wf(&self) -> bool {
        self.length == byte_len(self.value@)
    }
}

/// Picks the string with more bytes; of two equally long ones, the first.
pub fn choose_longest<'a>(a: &'a str, b: &'a str) -> (longest: LongestStr<'a>)
    ensures
        longest.value@ == (if byte_len(a@) >= byte_len(b@) { a@ } else { b@ }),
        longest.wf(),
        longest.length >= byte_len(a@),
        longest.length >= byte_len(b@),
{
    let a_len: usize = a.as_bytes().len();
    let b_len: usize = b.as_bytes().len();
    if a_len >= b_len {
        LongestStr { value: a, length: a_len }
    } else {
        LongestStr { value: b, length: b_len }
    }
}

} // verus!
