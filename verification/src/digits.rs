//! Decimal text: recognizing digit strings, reading them as numbers, and
//! rendering numbers back.  The interactive surface passes frame delays
//! and frame rates as text, so these conversions carry exact contracts.

use vstd::prelude::*;
use vstd::string::{StrSliceExecFns, StringExecFns};

verus! {

/// `c` is one of the ten ASCII digits.
pub open spec fn is_digit_char(c: char) -> bool {
    48 <= c as u32 <= 57
}

/// Every character of `s` is an ASCII digit.
pub open spec fn all_digits(s: Seq<char>) -> bool {
    forall|i: int| 0 <= i < s.len() ==> is_digit_char(s[i])
}

/// The numeric value of one digit character.
pub open spec fn digit_val(c: char) -> int {
    c as u32 - 48
}

/// The number a digit string denotes, most significant digit first.
pub open spec fn digits_value(s: Seq<char>) -> int
    decreases s.len(),
{
    if s.len() == 0 {
        0
    } else {
        digits_value(s.drop_last()) * 10 + digit_val(s.last())
    }
}

/// The digit character for one value in `0 ..= 9`.
pub open spec fn spec_digit_char(d: int) -> char {
    if d == 0 {
        '0'
    } else if d == 1 {
        '1'
    } else if d == 2 {
        '2'
    } else if d == 3 {
        '3'
    } else if d == 4 {
        '4'
    } else if d == 5 {
        '5'
    } else if d == 6 {
        '6'
    } else if d == 7 {
        '7'
    } else if d == 8 {
        '8'
    } else {
        '9'
    }
}

/// The decimal rendering of `n`, without leading zeros (a single zero for
/// zero itself).
pub open spec fn dec_digits(n: int) -> Seq<char>
    decreases n,
{
    if n <= 9 {
        seq![spec_digit_char(n)]
    } else {
        dec_digits(n / 10).push(spec_digit_char(n % 10))
    }
}

/// A digit-string prefix has a non-negative value.
proof fn lemma_digits_nonneg(s: Seq<char>, i: int)
    requires
        0 <= i <= s.len(),
        forall|k: int| 0 <= k < i ==> is_digit_char(s[k]),
    ensures
        0 <= digits_value(s.subrange(0, i)),
    decreases i,
{
    if i == 0 {
        assert(s.subrange(0, 0) =~= Seq::<char>::empty());
    } else {
        lemma_digits_nonneg(s, i - 1);
        assert(s.subrange(0, i).drop_last() =~= s.subrange(0, i - 1));
        assert(digits_value(s.subrange(0, i)) == digits_value(s.subrange(0, i - 1)) * 10
            + digit_val(s[i - 1]));
    }
}

/// A digit-string prefix never exceeds a longer prefix in value.
proof fn lemma_digits_prefix_le(s: Seq<char>, i: int, j: int)
    requires
        0 <= i <= j <= s.len(),
        forall|k: int| 0 <= k < j ==> is_digit_char(s[k]),
    ensures
        digits_value(s.subrange(0, i)) <= digits_value(s.subrange(0, j)),
    decreases j - i,
{
    if i < j {
        lemma_digits_prefix_le(s, i, j - 1);
        lemma_digits_nonneg(s, j - 1);
        assert(s.subrange(0, j).drop_last() =~= s.subrange(0, j - 1));
        assert(digits_value(s.subrange(0, j)) == digits_value(s.subrange(0, j - 1)) * 10
            + digit_val(s[j - 1]));
    }
}

/// Reads a decimal number: succeeds exactly on non-empty all-digit
/// strings whose value is representable, and then returns that value.
pub fn parse_u64(s: &str) -> (r: Option<u64>)
    ensures
        r is Some <==> (s@.len() > 0 && all_digits(s@) && digits_value(s@) <= u64::MAX),
        r matches Some(v) ==> v == digits_value(s@),
{
    let n = s.unicode_len();
    proof {
        assert(s@.subrange(0, s@.len() as int) =~= s@);
    }
    if n == 0 {
        return None;
    }
    let mut acc: u64 = 0;
    let mut i: usize = 0;
    while i < n
        invariant
            n == s@.len(),
            0 <= i <= n,
            forall|j: int| 0 <= j < i ==> is_digit_char(s@[j]),
            acc == digits_value(s@.subrange(0, i as int)),
        decreases n - i,
    {
        let c = s.get_char(i);
        let u = c as u32;
        if u < 48 || u > 57 {
            return None;
        }
        let d = (u - 48) as u64;
        if acc > (u64::MAX - d) / 10 {
            proof {
                if all_digits(s@) {
                    assert(s@.subrange(0, i as int + 1).drop_last() =~= s@.subrange(0, i as int));
                    assert(digits_value(s@.subrange(0, i as int + 1)) == acc * 10 + d);
                    assert(acc * 10 + d > u64::MAX) by (nonlinear_arith)
                        requires
                            acc > (u64::MAX - d) / 10,
                            0 <= d <= 9,
                            acc >= 0,
                    ;
                    lemma_digits_prefix_le(s@, i as int + 1, s@.len() as int);
                    assert(s@.subrange(0, s@.len() as int) =~= s@);
                }
            }
            return None;
        }
        proof {
            assert(acc * 10 + d <= u64::MAX) by (nonlinear_arith)
                requires
                    acc <= (u64::MAX - d) / 10,
                    0 <= d <= 9,
                    acc >= 0,
            ;
            assert(s@.subrange(0, i as int + 1).drop_last() =~= s@.subrange(0, i as int));
        }
        acc = acc * 10 + d;
        i = i + 1;
    }
    Some(acc)
}

/// Whether the string consists of ASCII digits only (vacuously true for
/// the empty string).
pub fn check_all_digits(s: &str) -> (b: bool)
    ensures
        b == all_digits(s@),
{
    let n = s.unicode_len();
    let mut i: usize = 0;
    while i < n
        invariant
            n == s@.len(),
            0 <= i <= n,
            forall|j: int| 0 <= j < i ==> is_digit_char(s@[j]),
        decreases n - i,
    {
        let u = s.get_char(i) as u32;
        if u < 48 || u > 57 {
            return false;
        }
        i = i + 1;
    }
    true
}

/// One digit as a string.
fn digit_to_str(d: u64) -> (s: String)
    requires
        d <= 9,
    ensures
        s@ =~= seq![spec_digit_char(d as int)],
{
    proof {
        reveal_strlit("0");
        reveal_strlit("1");
        reveal_strlit("2");
        reveal_strlit("3");
        reveal_strlit("4");
        reveal_strlit("5");
        reveal_strlit("6");
        reveal_strlit("7");
        reveal_strlit("8");
        reveal_strlit("9");
    }
    match d {
        0 => String::from_str("0"),
        1 => String::from_str("1"),
        2 => String::from_str("2"),
        3 => String::from_str("3"),
        4 => String::from_str("4"),
        5 => String::from_str("5"),
        6 => String::from_str("6"),
        7 => String::from_str("7"),
        8 => String::from_str("8"),
        _ => String::from_str("9"),
    }
}

/// Renders `n` in decimal.
pub fn u64_to_dec(n: u64) -> (s: String)
    ensures
        s@ == dec_digits(n as int),
    decreases n,
{
    if n <= 9 {
        let s = digit_to_str(n);
        proof {
            assert(s@ == dec_digits(n as int));
        }
        s
    } else {
        let mut s = u64_to_dec(n / 10);
        let tail = digit_to_str(n % 10);
        s.append(tail.as_str());
        proof {
            assert(s@ =~= dec_digits((n / 10) as int).push(spec_digit_char((n % 10) as int)));
        }
        s
    }
}

} // verus!
