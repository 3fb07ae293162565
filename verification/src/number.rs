//! Decimal numerals: what an unsigned 32-bit number in text form stands for.

use vstd::prelude::*;
use vstd::string::*;

verus! {

/// Whether `c` is one of the ten ASCII digits.
pub open spec fn is_digit(c: char) -> bool {
    '0' <= c <= '9'
}

/// The number that the digit `c` writes.
pub open spec fn digit_value(c: char) -> nat {
    (c as nat - '0' as nat) as nat
}

pub open spec fn all_digits(s: Seq<char>) -> bool {
    forall|i: int| 0 <= i < s.len() ==> is_digit(#[trigger] s[i])
}

/// The number that a run of decimal digits writes, most significant first.
pub open spec fn digits_value(s: Seq<char>) -> nat
    decreases s.len(),
{
    if s.len() == 0 {
        0
    } else {
        digits_value(s.drop_last()) * 10 + digit_value(s.last())
    }
}

/// The numeral without the one `+` that may stand in front of it.
pub open spec fn unsigned_part(s: Seq<char>) -> Seq<char> {
    if s.len() > 0 && s[0] == '+' {
        s.drop_first()
    } else {
        s
    }
}

/// The value of `s` as an unsigned 32-bit decimal numeral: an optional `+`,
/// then at least one ASCII digit and nothing else, the whole no larger than
/// `u32::MAX`. Anything else has no value.
pub open spec fn parse_u32_spec(s: Seq<char>) -> Option<u32> {
    let digits = unsigned_part(s);
    if digits.len() > 0 && all_digits(digits) && digits_value(digits) <= u32::MAX {
        Some(digits_value(digits) as u32)
    } else {
        None
    }
}

/// A run of digits is worth at least as much as any of its prefixes.
pub proof fn lemma_prefix_value(s: Seq<char>, k: int)
    requires
        0 <= k <= s.len(),
    ensures
        digits_value(s.take(k)) <= digits_value(s),
    decreases s.len() - k,
{
    if k == s.len() {
        assert(s.take(k) =~= s);
    } else {
        lemma_prefix_value(s, k + 1);
        assert(s.take(k + 1).drop_last() =~= s.take(k));
    }
}

/// Reads `s` as an unsigned 32-bit decimal numeral.
pub fn parse_u32(s: &str) -> (value: Option<u32>)
    ensures
        value == parse_u32_spec(s@),
{
    let ghost digits = unsigned_part(s@);
    if !s.is_ascii() {
        proof {
            let i = choose|i: int| 0 <= i < s@.len() && !('\0' <= #[trigger] s@[i] <= '\u{7f}');
            if i == 0 {
                assert(digits =~= s@);
                assert(!is_digit(digits[0]));
            } else {
                let j = if digits.len() == s@.len() { i } else { i - 1 };
                assert(digits[j] == s@[i]);
                assert(!is_digit(digits[j]));
            }
        }
        return None;
    }
    let n = s.unicode_len();
    let start: usize = if n > 0 && s.get_ascii(0) == 43u8 { 1 } else { 0 };
    assert(digits =~= s@.skip(start as int)) by {
        if n > 0 {
            assert('+' as u8 == 43u8);
            assert(s@[0] as u8 == 43u8 <==> s@[0] == '+');
        }
    }
    if start == n {
        return None;
    }
    let mut acc: u32 = 0;
    let mut i: usize = start;
    while i < n
        invariant
            start <= i <= n,
            n == s@.len(),
            s.is_ascii(),
            digits == unsigned_part(s@),
            digits == s@.skip(start as int),
            all_digits(digits.take(i - start)),
            digits_value(digits.take(i - start)) == acc,
        decreases n - i,
    {
        let b = s.get_ascii(i);
        let ghost c = s@[i as int];
        assert(c == digits[i - start]);
        assert('\0' <= c <= '\u{7f}');
        if b < 48u8 || b > 57u8 {
            assert(!is_digit(digits[i - start]));
            return None;
        }
        assert(is_digit(c));
        let digit: u32 = (b - 48u8) as u32;
        assert(digit == digit_value(c));
        proof {
            let next = digits.take(i - start + 1);
            assert(next.drop_last() =~= digits.take(i - start));
            assert(next.last() == c);
            assert(digits_value(next) == acc * 10 + digit);
            lemma_prefix_value(digits, i - start + 1);
            assert forall|j: int| 0 <= j < next.len() implies is_digit(#[trigger] next[j]) by {
                if j < i - start {
                    assert(next[j] == digits.take(i - start)[j]);
                }
            }
        }
        let scaled = match acc.checked_mul(10) {
            Some(scaled) => scaled,
            None => {
                return None;
            },
        };
        acc = match scaled.checked_add(digit) {
            Some(sum) => sum,
            None => {
                return None;
            },
        };
        i = i + 1;
    }
    assert(digits.take(n - start) =~= digits);
    Some(acc)
}

} // verus!
