//! Reading unsigned decimal numbers from text.

use vstd::prelude::*;

verus! {

/// Whether `c` is one of the ten ASCII decimal digits.
pub open spec fn is_digit(c: char) -> bool {
    '0' <= c && c <= '9'
}

/// The number that the decimal digit `c` stands for.
pub open spec fn digit_value(c: char) -> nat
    recommends
        is_digit(c),
{
    (c as u32 - '0' as u32) as nat
}

/// Whether `s` is a non-empty run of decimal digits.
pub open spec fn is_digits(s: Seq<char>) -> bool {
    s.len() > 0 && forall|i: int| 0 <= i < s.len() ==> is_digit(#[trigger] s[i])
}

/// The number written by the digits `s`, most significant digit first.
pub open spec fn digits_value(s: Seq<char>) -> nat
    decreases s.len(),
{
    if s.len() == 0 {
        0
    } else {
        digits_value(s.drop_last()) * 10 + digit_value(s.last())
    }
}

/// The text with one leading plus sign, if there is one, taken off.
pub open spec fn without_sign(s: Seq<char>) -> Seq<char> {
    if s.len() > 0 && s[0] == '+' {
        s.drop_first()
    } else {
        s
    }
}

/// The `u32` that the text `s` denotes: an optional plus sign followed by
/// at least one decimal digit and nothing else, with a value that fits in
/// 32 bits. Any other text denotes no number.
pub open spec fn decimal_u32(s: Seq<char>) -> Option<u32> {
    let digits = without_sign(s);
    if is_digits(digits) && digits_value(digits) <= u32::MAX {
        Some(digits_value(digits) as u32)
    } else {
        None
    }
}

/// Appending digits never makes the value smaller.
pub proof fn lemma_digits_value_prefix(s: Seq<char>, n: int)
    requires
        0 <= n <= s.len(),
    ensures
        digits_value(s.subrange(0, n)) <= digits_value(s),
    decreases s.len(),
{
    if n == s.len() {
        assert(s.subrange(0, n) =~= s);
    } else {
        lemma_digits_value_prefix(s.drop_last(), n);
        assert(s.drop_last().subrange(0, n) =~= s.subrange(0, n));
    }
}

/// Reads `text` as a `u32` in decimal notation, in one pass over its
/// characters.
pub fn parse_u32(text: &str) -> (r: Option<u32>)
    ensures
        r == decimal_u32(text@),
{
    let ghost start: int = if text@.len() > 0 && text@[0] == '+' {
        1
    } else {
        0
    };
    let ghost digits = without_sign(text@);
    assert(digits =~= text@.subrange(start, text@.len() as int));
    let mut first = true;
    let mut any = false;
    let mut acc: u64 = 0;
    for c in it: text.chars()
        invariant
            it.seq() == text@,
            digits == text@.subrange(start, text@.len() as int),
            digits == without_sign(text@),
            start == (if text@.len() > 0 && text@[0] == '+' {
                1int
            } else {
                0int
            }),
            first == (it.index() == 0),
            it.index() == 0 ==> acc == 0 && !any,
            it.index() > 0 ==> start <= it.index() && any == (it.index() > start),
            it.index() > 0 ==> acc == digits_value(digits.subrange(0, it.index() - start)),
            forall|k: int| 0 <= k < it.index() - start ==> is_digit(#[trigger] digits[k]),
            acc <= u32::MAX,
    {
        let ghost at = it.index() as int;
        assert(c == text@[at]);
        if first && c == '+' {
            first = false;
            assert(digits.subrange(0, 0) =~= Seq::<char>::empty());
        } else {
            first = false;
            assert(c == digits[at - start]);
            if !('0' <= c && c <= '9') {
                return None;
            }
            let d: u64 = (c as u32 - '0' as u32) as u64;
            let ghost before = digits.subrange(0, at - start);
            let ghost after = digits.subrange(0, at - start + 1);
            assert(after.drop_last() =~= before);
            assert(after.last() == c);
            assert(at == 0 ==> before =~= Seq::<char>::empty() && digits_value(before) == 0);
            let next: u64 = acc * 10 + d;
            assert(next == digits_value(after));
            if next > 0xffff_ffff {
                proof {
                    lemma_digits_value_prefix(digits, at - start + 1);
                }
                return None;
            }
            acc = next;
            any = true;
        }
    }
    if !any {
        return None;
    }
    assert(digits.subrange(0, digits.len() as int) =~= digits);
    Some(acc as u32)
}

} // verus!
