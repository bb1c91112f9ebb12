//! Decimal number parsing with the standard library's rules.

use vstd::prelude::*;
use vstd::string::*;
use crate::text::{chars_of, decimal_chars, digit_char};

verus! {

pub open spec fn is_digit(c: char) -> bool {
    '0' <= c <= '9'
}

pub open spec fn all_digits(s: Seq<char>) -> bool {
    forall|i: int| 0 <= i < s.len() ==> is_digit(#[trigger] s[i])
}

/// The value of a run of decimal digits.
pub open spec fn digits_value(s: Seq<char>) -> nat
    decreases s.len(),
{
    if s.len() == 0 {
        0
    } else {
        digits_value(s.drop_last()) * 10 + ((s.last() as int - 48) as nat)
    }
}

/// The digits of an unsigned number's text: one leading `+` is allowed.
pub open spec fn unsigned_digits(s: Seq<char>) -> Seq<char> {
    if s.len() > 0 && s[0] == '+' {
        s.drop_first()
    } else {
        s
    }
}

/// What `u64::from_str` gives for `s`: a `+` sign is allowed, then at least
/// one decimal digit and nothing else, and the value must fit in 64 bits.
pub open spec fn spec_parse_u64(s: Seq<char>) -> Option<u64> {
    let d = unsigned_digits(s);
    if d.len() > 0 && all_digits(d) && digits_value(d) <= u64::MAX {
        Some(digits_value(d) as u64)
    } else {
        None
    }
}

proof fn lemma_digits_value_prefix(s: Seq<char>, i: int)
    requires
        0 <= i <= s.len(),
        all_digits(s),
    ensures
        digits_value(s.subrange(0, i)) <= digits_value(s),
    decreases s.len() - i,
{
    if i < s.len() {
        let t = s.drop_last();
        assert(all_digits(t)) by {
            assert forall|k: int| 0 <= k < t.len() implies is_digit(#[trigger] t[k]) by {
                assert(t[k] == s[k]);
            }
        }
        lemma_digits_value_prefix(t, i);
        assert(t.subrange(0, i) =~= s.subrange(0, i));
    } else {
        assert(s.subrange(0, i) =~= s);
    }
}

/// `s.parse::<u64>().ok()`.
pub fn parse_u64(s: &str) -> (r: Option<u64>)
    ensures
        r == spec_parse_u64(s@),
{
    let cs = chars_of(s);
    let n = cs.len();
    let start: usize = if n > 0 && cs[0] == '+' {
        1
    } else {
        0
    };
    let ghost d = unsigned_digits(s@);
    proof {
        assert(d =~= s@.subrange(start as int, n as int));
    }
    if start >= n {
        return None;
    }
    let mut acc: u64 = 0;
    let mut i: usize = start;
    while i < n
        invariant
            cs@ == s@,
            n == s@.len(),
            start <= i <= n,
            start < n,
            d == s@.subrange(start as int, n as int),
            d == unsigned_digits(s@),
            forall|k: int| start <= k < i ==> is_digit(#[trigger] s@[k]),
            acc == digits_value(d.subrange(0, i - start)),
        decreases n - i,
    {
        let c = cs[i];
        if !('0' <= c && c <= '9') {
            proof {
                assert(d[i - start] == c);
                assert(!all_digits(d));
            }
            return None;
        }
        let digit: u64 = (c as u32 - 48) as u64;
        proof {
            let p = d.subrange(0, i + 1 - start);
            assert(p.drop_last() =~= d.subrange(0, i - start));
            assert(p.last() == c);
        }
        let next = match acc.checked_mul(10) {
            Some(m) => m.checked_add(digit),
            None => None,
        };
        match next {
            Some(v) => {
                acc = v;
            },
            None => {
                proof {
                    let p = d.subrange(0, i + 1 - start);
                    assert(digits_value(p) == acc * 10 + digit);
                    if all_digits(d) {
                        lemma_digits_value_prefix(d, i + 1 - start);
                    }
                }
                return None;
            },
        }
        i = i + 1;
    }
    proof {
        assert(d.subrange(0, n - start) =~= d);
        assert forall|k: int| 0 <= k < d.len() implies is_digit(#[trigger] d[k]) by {
            assert(d[k] == s@[k + start]);
        }
    }
    Some(acc)
}

proof fn lemma_decimal_digits(n: nat)
    ensures
        decimal_chars(n).len() > 0,
        all_digits(decimal_chars(n)),
        digits_value(decimal_chars(n)) == n,
    decreases n,
{
    if n < 10 {
        let d = decimal_chars(n);
        assert(digit_char(n) as int == 48 + n);
        assert(d.drop_last() =~= Seq::<char>::empty());
        assert(digits_value(Seq::<char>::empty()) == 0);
        assert(d.last() == digit_char(n));
        assert(digits_value(d) == digits_value(d.drop_last()) * 10 + ((d.last() as int - 48) as nat));
    } else {
        lemma_decimal_digits(n / 10);
        let d = decimal_chars(n);
        assert(d.drop_last() =~= decimal_chars(n / 10));
        assert(digit_char(n % 10) as int == 48 + n % 10);
        assert forall|k: int| 0 <= k < d.len() implies is_digit(#[trigger] d[k]) by {
            if k < d.len() - 1 {
                assert(d[k] == decimal_chars(n / 10)[k]);
            }
        }
        assert(d.last() == digit_char(n % 10));
        assert(digits_value(d) == digits_value(d.drop_last()) * 10 + ((d.last() as int - 48) as nat));
        assert((n / 10) * 10 + n % 10 == n);
    }
}

/// Parsing reads back every number as it is written in decimal.
pub proof fn lemma_parse_reads_decimal(n: u64)
    ensures
        spec_parse_u64(decimal_chars(n as nat)) == Some(n),
{
    lemma_decimal_digits(n as nat);
    let d = decimal_chars(n as nat);
    assert(is_digit(d[0]));
    assert(unsigned_digits(d) == d);
}

/// Parsing refuses the empty text, and any text with a character that is
/// not a digit, other than one leading `+`.
pub proof fn lemma_parse_refuses_non_digits(s: Seq<char>)
    ensures
        spec_parse_u64(Seq::<char>::empty()) is None,
        forall|k: int|
            0 <= k < s.len() && !is_digit(#[trigger] s[k]) && (k > 0 || s[k] != '+')
                ==> spec_parse_u64(s) is None,
{
    assert forall|k: int|
        0 <= k < s.len() && !is_digit(#[trigger] s[k]) && (k > 0 || s[k] != '+') implies spec_parse_u64(
            s,
        ) is None by {
        let d = unsigned_digits(s);
        if s.len() > 0 && s[0] == '+' {
            assert(d[k - 1] == s[k]);
        } else {
            assert(d[k] == s[k]);
        }
    }
}

} // verus!
