//! Decimal text for 64-bit signed integers: rendering and parsing, the
//! two directions the tokenizer and the printer rely on.

use vstd::prelude::*;
use vstd::string::StrSliceExecFns;
use vstd::string::StringExecFns;

verus! {

/// The decimal digit character for a value below ten.
pub open spec fn spec_digit(d: int) -> char {
    if d == 0 {
        '0'
    } else if d == 1 {
        '1'
    } else if d == 2 {
        '2'
    } else if d == 3 {
        '3'
    } else if d == 4 {
        '4'
    } else if d == 5 {
        '5'
    } else if d == 6 {
        '6'
    } else if d == 7 {
        '7'
    } else if d == 8 {
        '8'
    } else {
        '9'
    }
}

/// The decimal digit run of a non-negative value, most significant first.
pub open spec fn spec_nat_digits(n: int) -> Seq<char>
    decreases n,
{
    if n < 10 {
        seq![spec_digit(n)]
    } else {
        spec_nat_digits(n / 10).push(spec_digit(n % 10))
    }
}

/// The decimal rendering of a signed value.
pub open spec fn spec_i64_chars(n: int) -> Seq<char> {
    if n < 0 {
        seq!['-'] + spec_nat_digits(-n)
    } else {
        spec_nat_digits(n)
    }
}

fn digit_char(d: u64) -> (c: char)
    requires
        d < 10,
    ensures
        c == spec_digit(d as int),
{
    if d == 0 {
        '0'
    } else if d == 1 {
        '1'
    } else if d == 2 {
        '2'
    } else if d == 3 {
        '3'
    } else if d == 4 {
        '4'
    } else if d == 5 {
        '5'
    } else if d == 6 {
        '6'
    } else if d == 7 {
        '7'
    } else if d == 8 {
        '8'
    } else {
        '9'
    }
}

fn push_digits(m: u64, out: &mut Vec<char>)
    ensures
        final(out)@ == old(out)@ + spec_nat_digits(m as int),
    decreases m,
{
    if m < 10 {
        out.push(digit_char(m));
        proof {
            assert(out@ =~= old(out)@ + spec_nat_digits(m as int));
        }
    } else {
        push_digits(m / 10, out);
        out.push(digit_char(m % 10));
        proof {
            assert(out@ =~= old(out)@ + spec_nat_digits(m as int));
        }
    }
}

/// Relies on `String::from_iter` over `char`: the string made of exactly
/// the given characters, in order.
#[verifier::external_body]
pub(crate) fn string_from_chars(v: &Vec<char>) -> (s: String)
    ensures
        s@ == v@,
{
    v.iter().collect()
}

/// Renders a signed 64-bit value in decimal.
pub fn num_to_string(n: i64) -> (s: String)
    ensures
        s@ == spec_i64_chars(n as int),
{
    let mut chars: Vec<char> = Vec::new();
    if n >= 0 {
        push_digits(n as u64, &mut chars);
    } else {
        chars.push('-');
        // The magnitude of `n`, computed without overflowing at `i64::MIN`.
        let m: u64 = ((-(n + 1)) as u64) + 1;
        push_digits(m, &mut chars);
        proof {
            assert(chars@ =~= seq!['-'] + spec_nat_digits(-(n as int)));
        }
    }
    string_from_chars(&chars)
}

/// Whether `c` is a decimal digit.
pub open spec fn spec_is_digit(c: char) -> bool {
    '0' <= c <= '9'
}

/// Whether every character of `s` is a decimal digit.
pub open spec fn spec_all_digits(s: Seq<char>) -> bool {
    forall|i: int| 0 <= i < s.len() ==> spec_is_digit(#[trigger] s[i])
}

/// The numeric value of a run of digit characters.
pub open spec fn spec_digits_val(s: Seq<char>) -> int
    decreases s.len(),
{
    if s.len() == 0 {
        0
    } else {
        spec_digits_val(s.drop_last()) * 10 + (s.last() as int - '0' as int)
    }
}

/// What `str::parse::<i64>` accepts: an optional sign, then one or more
/// decimal digits, denoting a value within the 64-bit signed range.
pub open spec fn spec_parse_i64(s: Seq<char>) -> Option<i64> {
    let digits = if s.len() > 0 && (s[0] == '+' || s[0] == '-') {
        s.drop_first()
    } else {
        s
    };
    let negative = s.len() > 0 && s[0] == '-';
    if digits.len() == 0 || !spec_all_digits(digits) {
        None
    } else {
        let v = spec_digits_val(digits);
        if negative {
            if v <= 0x8000_0000_0000_0000 {
                Some((-v) as i64)
            } else {
                None
            }
        } else {
            if v <= 0x7fff_ffff_ffff_ffff {
                Some(v as i64)
            } else {
                None
            }
        }
    }
}

proof fn lemma_digits_val_bounds(s: Seq<char>)
    requires
        spec_all_digits(s),
    ensures
        spec_digits_val(s) >= 0,
        s.len() > 0 && s[0] != '0' ==> spec_digits_val(s) >= 1,
    decreases s.len(),
{
    if s.len() > 0 {
        assert(spec_all_digits(s.drop_last()));
        lemma_digits_val_bounds(s.drop_last());
        if s.len() > 1 {
            assert(s.drop_last()[0] == s[0]);
        }
    }
}

proof fn lemma_digits_val_monotone(s: Seq<char>, n: int)
    requires
        0 <= n <= s.len(),
        spec_all_digits(s),
    ensures
        spec_digits_val(s) >= spec_digits_val(s.take(n)),
    decreases s.len() - n,
{
    if n < s.len() {
        assert(spec_all_digits(s.take(n)));
        lemma_digits_val_bounds(s.take(n));
        assert(s.take(n + 1).drop_last() =~= s.take(n));
        assert(spec_digits_val(s.take(n + 1)) == spec_digits_val(s.take(n)) * 10 + (s[n] as int
            - '0' as int));
        lemma_digits_val_monotone(s, n + 1);
    } else {
        assert(s.take(n) =~= s);
    }
}

/// Parses decimal text exactly as `str::parse::<i64>` would.
pub fn parse_i64(s: &str) -> (r: Option<i64>)
    ensures
        r == spec_parse_i64(s@),
{
    let n = s.unicode_len();
    let mut start: usize = 0;
    let mut negative = false;
    if n > 0 {
        let c0 = s.get_char(0);
        if c0 == '+' {
            start = 1;
        } else if c0 == '-' {
            start = 1;
            negative = true;
        }
    }
    let ghost digits = if start == 1 { s@.drop_first() } else { s@ };
    proof {
        assert(digits =~= s@.subrange(start as int, n as int));
    }
    if start == n {
        return None;
    }
    let bound: u64 = if negative {
        0x8000_0000_0000_0000
    } else {
        0x7fff_ffff_ffff_ffff
    };
    let mut acc: u64 = 0;
    let mut i = start;
    while i < n
        invariant
            start <= i <= n,
            n == s@.len(),
            (start == 1) == (n > 0 && (s@[0] == '+' || s@[0] == '-')),
            negative == (n > 0 && s@[0] == '-'),
            start <= 1,
            digits == if start == 1 { s@.drop_first() } else { s@ },
            digits =~= s@.subrange(start as int, n as int),
            forall|k: int| 0 <= k < i - start ==> spec_is_digit(#[trigger] digits[k]),
            acc == spec_digits_val(digits.take(i - start)),
            acc <= bound,
            bound == if negative { 0x8000_0000_0000_0000u64 } else { 0x7fff_ffff_ffff_ffffu64 },
        decreases n - i,
    {
        let c = s.get_char(i);
        if c < '0' || c > '9' {
            proof {
                assert(!spec_is_digit(digits[i - start]));
                assert(!spec_all_digits(digits));
            }
            return None;
        }
        let d: u64 = (c as u32 as u64) - 48;
        proof {
            assert(d == digits[i - start] as int - '0' as int);
            assert(digits.take(i + 1 - start).drop_last() =~= digits.take(i - start));
            assert(digits.take(i + 1 - start).last() == digits[i - start]);
        }
        if acc > (bound - d) / 10 {
            // Too large already; appending digits can only grow the value.
            proof {
                let part = digits.take(i + 1 - start);
                assert(spec_digits_val(part) == acc * 10 + d);
                assert(acc * 10 + d > bound) by {
                    let q = ((bound - d) / 10) as int;
                    assert(bound - d == 10 * q + ((bound - d) as int % 10));
                    assert(acc >= q + 1);
                };
                if spec_all_digits(digits) {
                    lemma_digits_val_monotone(digits, i + 1 - start);
                    assert(spec_digits_val(digits) > bound);
                }
            }
            return None;
        }
        acc = acc * 10 + d;
        i = i + 1;
    }
    proof {
        assert(digits.take(n - start) =~= digits);
    }
    if negative {
        if acc == 0x8000_0000_0000_0000 {
            Some(i64::MIN)
        } else {
            Some(-(acc as i64))
        }
    } else {
        Some(acc as i64)
    }
}

} // verus!
