//! Small readers of text: where a character stands, and what number a run
//! of digits spells.

use vstd::prelude::*;

verus! {

/// The first position at or after `from` at which `c` stands in `text`;
/// the length of `text` where it stands nowhere there.
pub open spec fn find_from(text: Seq<char>, c: char, from: int) -> int
    decreases text.len() - from,
{
    if from < 0 || from >= text.len() {
        text.len() as int
    } else if text[from] == c {
        from
    } else {
        find_from(text, c, from + 1)
    }
}

/// Whether `c` is one of the ten digits.
pub open spec fn is_digit(c: char) -> bool {
    '0' <= c <= '9'
}

/// Whether `text` holds digits only.
pub open spec fn all_digits(text: Seq<char>) -> bool {
    forall|i: int| 0 <= i < text.len() ==> is_digit(#[trigger] text[i])
}

/// The number that the digits of `text` spell in base ten.
pub open spec fn decimal_value(text: Seq<char>) -> nat
    decreases text.len(),
{
    if text.len() == 0 {
        0
    } else {
        decimal_value(text.drop_last()) * 10 + (text.last() as u32 - '0' as u32) as nat
    }
}

/// The number that `text` spells, where it is a run of at least one digit
/// whose number fits 32 bits.
pub open spec fn decimal_u32(text: Seq<char>) -> Option<u32> {
    if text.len() > 0 && all_digits(text) && decimal_value(text) <= u32::MAX {
        Some(decimal_value(text) as u32)
    } else {
        None
    }
}

pub proof fn lemma_find_from_bounds(text: Seq<char>, c: char, from: int)
    requires
        0 <= from <= text.len(),
    ensures
        from <= find_from(text, c, from) <= text.len(),
        find_from(text, c, from) < text.len() ==> text[find_from(text, c, from)] == c,
        forall|i: int| from <= i < find_from(text, c, from) ==> text[i] != c,
    decreases text.len() - from,
{
    if from < text.len() && text[from] != c {
        lemma_find_from_bounds(text, c, from + 1);
    }
}

/// A longer run of digits spells no smaller number.
pub proof fn lemma_decimal_grows(text: Seq<char>, n: int)
    requires
        0 <= n <= text.len(),
        all_digits(text),
    ensures
        decimal_value(text.take(n)) <= decimal_value(text),
    decreases text.len() - n,
{
    if n < text.len() {
        lemma_decimal_grows(text.drop_last(), n);
        assert(text.drop_last().take(n) =~= text.take(n));
        assert(is_digit(text.last()));
    } else {
        assert(text.take(n) =~= text);
    }
}

/// Finds the first position at or after `from` at which `c` stands in `s`;
/// gives the length of `s` in characters where it stands nowhere there.
pub fn find_char(s: &str, c: char, from: usize) -> (at: usize)
    ensures
        at == find_from(s@, c, from as int),
        at <= s@.len(),
        from <= s@.len() ==> from <= at,
{
    let len = s.unicode_len();
    if from > len {
        return len;
    }
    let mut i: usize = from;
    proof {
        lemma_find_from_bounds(s@, c, from as int);
    }
    while i < len
        invariant
            from <= i <= len == s@.len(),
            find_from(s@, c, from as int) == find_from(s@, c, i as int),
        decreases len - i,
    {
        if s.get_char(i) == c {
            return i;
        }
        i = i + 1;
    }
    i
}

/// Reads the number that the characters of `s` from `from` up to `to`
/// spell in base ten; nothing where there are no such characters.
pub fn parse_u32(s: &str, from: usize, to: usize) -> (r: Option<u32>)
    ensures
        from <= to <= s@.len() ==> r == decimal_u32(s@.subrange(from as int, to as int)),
        !(from <= to <= s@.len()) ==> r is None,
{
    if from >= to || to > s.unicode_len() {
        return None;
    }
    let ghost digits = s@.subrange(from as int, to as int);
    let mut value: u64 = 0;
    let mut i: usize = from;
    proof {
        assert(digits.take(0) =~= Seq::<char>::empty());
    }
    while i < to
        invariant
            from <= i <= to <= s@.len(),
            digits == s@.subrange(from as int, to as int),
            all_digits(digits.take(i - from)),
            value == decimal_value(digits.take(i - from)),
            value <= u32::MAX,
        decreases to - i,
    {
        let c = s.get_char(i);
        proof {
            assert(digits[i - from] == c);
            assert(digits.take(i - from + 1).drop_last() =~= digits.take(i - from));
            assert(digits.take(i - from + 1).last() == c);
        }
        if !('0' <= c && c <= '9') {
            proof {
                assert(!is_digit(digits[i - from]));
            }
            return None;
        }
        let digit: u64 = (c as u32 - '0' as u32) as u64;
        value = value * 10 + digit;
        proof {
            assert forall|k: int| 0 <= k < digits.take(i - from + 1).len() implies is_digit(
                #[trigger] digits.take(i - from + 1)[k],
            ) by {
                if k < i - from {
                    assert(digits.take(i - from)[k] == digits.take(i - from + 1)[k]);
                }
            }
        }
        if value > u32::MAX as u64 {
            proof {
                if all_digits(digits) {
                    lemma_decimal_grows(digits, i - from + 1);
                }
            }
            return None;
        }
        i = i + 1;
    }
    proof {
        assert(digits.take(to - from) =~= digits);
    }
    Some(value as u32)
}

} // verus!
