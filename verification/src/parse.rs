//! Reading a decimal integer from a line of text.

use vstd::prelude::*;
use vstd::string::*;

verus! {

/// Whether a character is one of the ten decimal digits.
pub open spec fn is_digit(c: char) -> bool {
    '0' <= c && c <= '9'
}

/// The number that a digit stands for; zero for any other character.
pub open spec fn digit_value(c: char) -> nat {
    if is_digit(c) {
        (c as nat - '0' as nat) as nat
    } else {
        0
    }
}

/// Whether a character is white space, as Unicode defines it.
pub open spec fn is_space(c: char) -> bool {
    let code = c as u32;
    ||| 0x09 <= code <= 0x0D
    ||| code == 0x20
    ||| code == 0x85
    ||| code == 0xA0
    ||| code == 0x1680
    ||| 0x2000 <= code <= 0x200A
    ||| code == 0x2028
    ||| code == 0x2029
    ||| code == 0x202F
    ||| code == 0x205F
    ||| code == 0x3000
}

/// A text without its leading white space.
pub open spec fn trim_start(s: Seq<char>) -> Seq<char>
    decreases s.len(),
{
    if s.len() > 0 && is_space(s[0]) {
        trim_start(s.drop_first())
    } else {
        s
    }
}

/// A text without its trailing white space.
pub open spec fn trim_end(s: Seq<char>) -> Seq<char>
    decreases s.len(),
{
    if s.len() > 0 && is_space(s.last()) {
        trim_end(s.drop_last())
    } else {
        s
    }
}

/// A text without the white space at either end.
pub open spec fn trimmed(s: Seq<char>) -> Seq<char> {
    trim_end(trim_start(s))
}

/// Whether every character of a text is a decimal digit.
pub open spec fn all_digits(s: Seq<char>) -> bool {
    forall|i: int| 0 <= i < s.len() ==> is_digit(#[trigger] s[i])
}

/// The number that a run of digits denotes, most significant digit first.
pub open spec fn digits_value(s: Seq<char>) -> nat
    decreases s.len(),
{
    if s.len() == 0 {
        0
    } else {
        digits_value(s.drop_last()) * 10 + digit_value(s.last())
    }
}

/// Whether a text begins with the given character.
pub open spec fn starts_with(s: Seq<char>, c: char) -> bool {
    s.len() > 0 && s[0] == c
}

/// The unsigned 32-bit integer that a text denotes: an optional `+`, then one
/// or more digits whose value fits.
pub open spec fn parse_u32(s: Seq<char>) -> Option<u32> {
    let body = if starts_with(s, '+') { s.drop_first() } else { s };
    if body.len() > 0 && all_digits(body) && digits_value(body) <= u32::MAX {
        Some(digits_value(body) as u32)
    } else {
        None
    }
}

/// The signed 32-bit integer that a text denotes: an optional `+` or `-`, then
/// one or more digits whose signed value fits.
pub open spec fn parse_i32(s: Seq<char>) -> Option<i32> {
    let negative = starts_with(s, '-');
    let body = if negative || starts_with(s, '+') { s.drop_first() } else { s };
    let value = if negative { -(digits_value(body) as int) } else { digits_value(body) as int };
    if body.len() > 0 && all_digits(body) && i32::MIN <= value <= i32::MAX {
        Some(value as i32)
    } else {
        None
    }
}

/// A longer run of characters denotes at least as much as any of its prefixes.
pub proof fn lemma_digits_value_prefix(s: Seq<char>, k: int)
    requires
        0 <= k <= s.len(),
    ensures
        digits_value(s.take(k)) <= digits_value(s),
    decreases s.len(),
{
    if k == s.len() {
        assert(s.take(k) =~= s);
    } else {
        lemma_digits_value_prefix(s.drop_last(), k);
        assert(s.drop_last().take(k) =~= s.take(k));
    }
}

/// Dropping `k` leading white-space characters, where the next is none, trims the start.
pub proof fn lemma_trim_start_skip(s: Seq<char>, k: int)
    requires
        0 <= k <= s.len(),
        forall|i: int| 0 <= i < k ==> is_space(#[trigger] s[i]),
        k == s.len() || !is_space(s[k]),
    ensures
        trim_start(s) == s.skip(k),
    decreases k,
{
    if k == 0 {
        assert(s.skip(0) =~= s);
    } else {
        lemma_trim_start_skip(s.drop_first(), k - 1);
        assert(s.drop_first().skip(k - 1) =~= s.skip(k));
    }
}

/// Keeping the first `k` characters, where all that follow are white space
/// and the last kept is none, trims the end.
pub proof fn lemma_trim_end_take(s: Seq<char>, k: int)
    requires
        0 <= k <= s.len(),
        forall|i: int| k <= i < s.len() ==> is_space(#[trigger] s[i]),
        k == 0 || !is_space(s[k - 1]),
    ensures
        trim_end(s) == s.take(k),
    decreases s.len() - k,
{
    if k == s.len() {
        assert(s.take(k) =~= s);
    } else {
        lemma_trim_end_take(s.drop_last(), k);
        assert(s.drop_last().take(k) =~= s.take(k));
    }
}

/// No digit is white space.
pub proof fn lemma_digit_is_no_space(c: char)
    requires
        is_digit(c),
    ensures
        !is_space(c),
{
}

/// White space around a text that neither begins nor ends with white space
/// is what trimming takes away.
pub proof fn lemma_trimmed_padded(before: Seq<char>, core: Seq<char>, after: Seq<char>)
    requires
        forall|i: int| 0 <= i < before.len() ==> is_space(#[trigger] before[i]),
        forall|i: int| 0 <= i < after.len() ==> is_space(#[trigger] after[i]),
        core.len() > 0 ==> !is_space(core.first()) && !is_space(core.last()),
    ensures
        trimmed(before + core + after) == core,
{
    let s = before + core + after;
    if core.len() == 0 {
        lemma_trim_start_skip(s, s.len() as int);
        assert(s.skip(s.len() as int) =~= core);
    } else {
        lemma_trim_start_skip(s, before.len() as int);
        let t = s.skip(before.len() as int);
        assert(t =~= core + after);
        lemma_trim_end_take(t, core.len() as int);
        assert(t.take(core.len() as int) =~= core);
    }
}

/// A line of digits, with any white space around it, reads as the number
/// that the digits denote, where that number fits.
pub proof fn lemma_line_of_digits(before: Seq<char>, digits: Seq<char>, after: Seq<char>)
    requires
        forall|i: int| 0 <= i < before.len() ==> is_space(#[trigger] before[i]),
        forall|i: int| 0 <= i < after.len() ==> is_space(#[trigger] after[i]),
        digits.len() > 0,
        all_digits(digits),
        digits_value(digits) <= u32::MAX,
    ensures
        parse_u32(trimmed(before + digits + after)) == Some(digits_value(digits) as u32),
{
    lemma_digit_is_no_space(digits.first());
    lemma_digit_is_no_space(digits.last());
    lemma_trimmed_padded(before, digits, after);
}

/// A text with a character that is neither a digit nor a sign in front
/// denotes no number, signed or unsigned.
pub proof fn lemma_stray_character(s: Seq<char>, at: int)
    requires
        0 <= at < s.len(),
        !is_digit(s[at]),
        at > 0 || (s[0] != '+' && s[0] != '-'),
    ensures
        parse_u32(s) is None,
        parse_i32(s) is None,
{
    if at > 0 {
        assert(s.drop_first()[at - 1] == s[at]);
    }
}

/// The characters of a string slice, in order.
pub fn chars_of(s: &str) -> (chars: Vec<char>)
    ensures
        chars@ == s@,
{
    let mut chars: Vec<char> = Vec::new();
    let mut rest = s.chars();
    let ghost total = s@;
    proof {
        axiom_spec_iter(s);
    }
    loop
        invariant
            chars@.len() <= total.len(),
            chars@ == total.take(chars@.len() as int),
            vstd::std_specs::iter::IteratorSpec::remaining(&rest) == total.skip(chars@.len() as int),
        ensures
            chars@ == total,
        decreases total.len() - chars@.len(),
    {
        let ghost before = rest;
        let next = rest.next();
        proof {
            next_postcondition(&before, &rest, next);
        }
        match next {
            Some(c) => {
                chars.push(c);
                assert(chars@ =~= total.take(chars@.len() as int));
                assert(total.skip(chars@.len() as int - 1).drop_first() =~= total.skip(
                    chars@.len() as int,
                ));
            },
            None => {
                assert(total.take(total.len() as int) =~= total);
                break ;
            },
        }
    }
    chars
}

/// Whether a character is white space.
pub fn is_whitespace(c: char) -> (space: bool)
    ensures
        space == is_space(c),
{
    let code: u32 = c as u32;
    (0x09 <= code && code <= 0x0D) || code == 0x20 || code == 0x85 || code == 0xA0 || code
        == 0x1680 || (0x2000 <= code && code <= 0x200A) || code == 0x2028 || code == 0x2029 || code
        == 0x202F || code == 0x205F || code == 0x3000
}

/// The bounds of a text once the white space at either end is left out.
pub fn trim_bounds(chars: &Vec<char>) -> (bounds: (usize, usize))
    ensures
        bounds.0 <= bounds.1 <= chars@.len(),
        chars@.subrange(bounds.0 as int, bounds.1 as int) == trimmed(chars@),
{
    let len: usize = chars.len();
    let mut lo: usize = 0;
    while lo < len && is_whitespace(chars[lo])
        invariant
            len == chars@.len(),
            lo <= len,
            forall|i: int| 0 <= i < lo ==> is_space(#[trigger] chars@[i]),
        decreases len - lo,
    {
        lo += 1;
    }
    let mut hi: usize = len;
    while hi > lo && is_whitespace(chars[hi - 1])
        invariant
            len == chars@.len(),
            lo <= hi <= len,
            forall|i: int| hi <= i < len ==> is_space(#[trigger] chars@[i]),
        decreases hi,
    {
        hi -= 1;
    }
    proof {
        let s = chars@;
        lemma_trim_start_skip(s, lo as int);
        let t = s.skip(lo as int);
        assert forall|i: int| hi - lo <= i < t.len() implies is_space(#[trigger] t[i]) by {
            assert(t[i] == s[i + lo]);
        }
        lemma_trim_end_take(t, hi - lo);
        assert(t.take(hi - lo) =~= s.subrange(lo as int, hi as int));
    }
    (lo, hi)
}

/// Reads the digits between two positions of a text. There is a result where
/// the run is not empty, holds digits only and denotes no more than `limit`.
pub fn read_digits(chars: &Vec<char>, start: usize, end: usize, limit: u64) -> (value: Option<u64>)
    requires
        start <= end <= chars@.len(),
    ensures
        value is Some <==> {
            let run = chars@.subrange(start as int, end as int);
            run.len() > 0 && all_digits(run) && digits_value(run) <= limit
        },
        value is Some ==> value->0 == digits_value(chars@.subrange(start as int, end as int)),
{
    if start == end {
        return None;
    }
    let ghost run = chars@.subrange(start as int, end as int);
    let mut total: u64 = 0;
    let mut at: usize = start;
    assert(run.take(0) =~= Seq::<char>::empty());
    while at < end
        invariant
            start <= at <= end <= chars@.len(),
            run == chars@.subrange(start as int, end as int),
            all_digits(run.take(at - start)),
            total == digits_value(run.take(at - start)),
            total <= limit,
        decreases end - at,
    {
        let c: char = chars[at];
        let ghost seen = run.take(at - start + 1);
        assert(seen.drop_last() =~= run.take(at - start));
        assert(seen.last() == c);
        if !('0' <= c && c <= '9') {
            assert(run[at - start] == c);
            return None;
        }
        let digit: u64 = (c as u32 - '0' as u32) as u64;
        assert(digits_value(seen) == total * 10 + digit);
        if total > limit / 10 || digit > limit - total * 10 {
            proof {
                lemma_digits_value_prefix(run, at - start + 1);
            }
            return None;
        }
        total = total * 10 + digit;
        at += 1;
    }
    assert(run.take(end - start) =~= run);
    Some(total)
}

/// Reads an unsigned 32-bit integer from a line, ignoring the white space
/// around it. There is no result where what is left is not such a number.
pub fn read_u32(line: &str) -> (number: Option<u32>)
    ensures
        number == parse_u32(trimmed(line@)),
{
    let chars = chars_of(line);
    let (lo, hi) = trim_bounds(&chars);
    let ghost text = trimmed(line@);
    let plus: bool = lo < hi && chars[lo] == '+';
    assert(plus == starts_with(text, '+'));
    let start: usize = if plus { lo + 1 } else { lo };
    assert(chars@.subrange(start as int, hi as int) =~= if plus { text.drop_first() } else { text });
    match read_digits(&chars, start, hi, 0xFFFF_FFFF) {
        Some(value) => Some(value as u32),
        None => None,
    }
}

/// Reads a signed 32-bit integer from a line, ignoring the white space
/// around it. There is no result where what is left is not such a number.
pub fn read_i32(line: &str) -> (number: Option<i32>)
    ensures
        number == parse_i32(trimmed(line@)),
{
    let chars = chars_of(line);
    let (lo, hi) = trim_bounds(&chars);
    let ghost text = trimmed(line@);
    let minus: bool = lo < hi && chars[lo] == '-';
    let plus: bool = lo < hi && chars[lo] == '+';
    assert(minus == starts_with(text, '-'));
    assert(plus == starts_with(text, '+'));
    let start: usize = if minus || plus { lo + 1 } else { lo };
    assert(chars@.subrange(start as int, hi as int) =~= if minus || plus { text.drop_first() } else { text });
    let limit: u64 = if minus { 0x8000_0000 } else { 0x7FFF_FFFF };
    match read_digits(&chars, start, hi, limit) {
        Some(value) => {
            let wide: i64 = if minus { -(value as i64) } else { value as i64 };
            Some(wide as i32)
        },
        None => None,
    }
}

} // verus!
