//! Moving, borrowing and changing strings.

use vstd::prelude::*;
use vstd::string::*;
use crate::text::byte_len;

verus! {

/// Takes a string from the caller and hands the same string back.
pub fn takes_and_gives_back(a_string: String) -> (back: String)
    ensures
        back == a_string,
{
    a_string
}

/// The length of a borrowed string in bytes of UTF-8.
pub fn calculate_length(s: &String) -> (len: usize)
    ensures
        len == byte_len(s@),
{
    s.as_str().as_bytes().len()
}

/// Appends `", world"` to the string behind an exclusive borrow.
pub fn change(some_string: &mut String)
    ensures
        final(some_string)@ == old(some_string)@ + ", world"@,
{
    some_string.append(", world");
}

} // verus!
