//! The source position in a toolchain message such as
//! `shader.glsl:12: error: 'x' : undeclared identifier`: the decimal field
//! between the message's first and second colon.

use vstd::prelude::*;
use crate::template::chars_of;

verus! {

/// `c` is a decimal digit.
pub open spec fn is_digit(c: char) -> bool {
    '0' <= c && c <= '9'
}

/// Every character of `d` is a decimal digit.
pub open spec fn all_digits(d: Seq<char>) -> bool {
    forall|i: int| 0 <= i < d.len() ==> is_digit(#[trigger] d[i])
}

/// The number that the digits `d` write in base ten.
pub open spec fn decimal_value(d: Seq<char>) -> nat
    decreases d.len(),
{
    if d.len() == 0 {
        0
    } else {
        decimal_value(d.drop_last()) * 10 + ((d.last() as u32 - '0' as u32) as nat)
    }
}

/// The first colon of `s` at or after `from`, or the length of `s` where
/// there is none.
pub open spec fn next_colon(s: Seq<char>, from: int) -> int
    decreases s.len() - from,
{
    if from < 0 || from >= s.len() {
        s.len() as int
    } else if s[from] == ':' {
        from
    } else {
        next_colon(s, from + 1)
    }
}

/// The line number that message `s` gives: the field between its first two
/// colons, where that field is a decimal number that fits in 32 bits.
pub open spec fn line_of_message(s: Seq<char>) -> Option<nat> {
    let c = next_colon(s, 0);
    let e = next_colon(s, c + 1);
    let field = s.subrange(c + 1, e);
    if c < s.len() && e < s.len() && field.len() > 0 && all_digits(field) && decimal_value(field)
        <= u32::MAX {
        Some(decimal_value(field))
    } else {
        None
    }
}

proof fn lemma_next_colon_bounds(s: Seq<char>, from: int)
    requires
        0 <= from,
    ensures
        from <= next_colon(s, from) <= s.len() || (from > s.len() && next_colon(s, from) == s.len()),
    decreases s.len() - from,
{
    if from < s.len() && s[from] != ':' {
        lemma_next_colon_bounds(s, from + 1);
    }
}

/// A prefix of a run of digits writes no larger a number than the run.
proof fn lemma_decimal_prefix(d: Seq<char>, k: int)
    requires
        0 <= k <= d.len(),
    ensures
        decimal_value(d.subrange(0, k)) <= decimal_value(d),
    decreases d.len(),
{
    if k < d.len() {
        lemma_decimal_prefix(d.drop_last(), k);
        assert(d.drop_last().subrange(0, k) =~= d.subrange(0, k));
    } else {
        assert(d.subrange(0, k) =~= d);
    }
}

/// The first colon of `chars` at or after `from`, or its length.
fn find_colon(chars: &Vec<char>, from: usize) -> (r: usize)
    requires
        from <= chars.len(),
    ensures
        r == next_colon(chars@, from as int),
        from <= r <= chars.len(),
{
    let mut i = from;
    while i < chars.len()
        invariant
            from <= i <= chars.len(),
            next_colon(chars@, from as int) == next_colon(chars@, i as int),
        decreases chars.len() - i,
    {
        if chars[i] == ':' {
            return i;
        }
        i = i + 1;
    }
    i
}

/// The line number that a toolchain message gives, where it gives one.
pub fn line_in_message(message: &str) -> (r: Option<u32>)
    ensures
        r is None <==> line_of_message(message@) is None,
        r matches Some(n) ==> line_of_message(message@) == Some(n as nat),
{
    let chars = chars_of(message);
    let n = chars.len();
    let c = find_colon(&chars, 0);
    if c >= n {
        return None;
    }
    let e = find_colon(&chars, c + 1);
    if e >= n || e == c + 1 {
        return None;
    }
    let ghost field = chars@.subrange(c + 1, e as int);
    let mut value: u64 = 0;
    let mut k = c + 1;
    while k < e
        invariant
            chars@ == message@,
            c + 1 <= k <= e < n == chars@.len(),
            field == chars@.subrange(c + 1, e as int),
            c == next_colon(chars@, 0),
            e == next_colon(chars@, c + 1),
            value == decimal_value(chars@.subrange(c + 1, k as int)),
            value <= u32::MAX,
            all_digits(chars@.subrange(c + 1, k as int)),
        decreases e - k,
    {
        let ch = chars[k];
        let prefix = Ghost(chars@.subrange(c + 1, k + 1));
        proof {
            assert(prefix@.drop_last() =~= chars@.subrange(c + 1, k as int));
            assert(prefix@ =~= field.subrange(0, k + 1 - (c + 1)));
        }
        if !('0' <= ch && ch <= '9') {
            proof {
                assert(field[k - (c + 1)] == ch);
            }
            return None;
        }
        value = value * 10 + (ch as u32 - '0' as u32) as u64;
        proof {
            assert(prefix@.last() == ch);
            assert(value == decimal_value(prefix@));
        }
        if value > 0xffff_ffff {
            proof {
                lemma_decimal_prefix(field, k + 1 - (c + 1));
            }
            return None;
        }
        k = k + 1;
    }
    Some(value as u32)
}

} // verus!
