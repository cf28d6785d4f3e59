//! Decimal text of machine integers, and the character sequences built from it.
use vstd::prelude::*;

verus! {

/// The character of a decimal digit `d` in `0..10`.
pub open spec fn digit_char(d: int) -> char {
    if d == 0 {
        '0'
    } else if d == 1 {
        '1'
    } else if d == 2 {
        '2'
    } else if d == 3 {
        '3'
    } else if d == 4 {
        '4'
    } else if d == 5 {
        '5'
    } else if d == 6 {
        '6'
    } else if d == 7 {
        '7'
    } else if d == 8 {
        '8'
    } else {
        '9'
    }
}

pub open spec fn is_digit(c: char) -> bool {
    '0' <= c && c <= '9'
}

pub open spec fn digit_value(c: char) -> int {
    (c as int) - ('0' as int)
}

/// Decimal digits of `n`, without leading zeros ("0" for zero).
pub open spec fn nat_text(n: nat) -> Seq<char>
    decreases n,
{
    if n < 10 {
        seq![digit_char(n as int)]
    } else {
        nat_text(n / 10).push(digit_char((n % 10) as int))
    }
}

/// Decimal text of an integer: a minus sign for negative values, then its digits.
pub open spec fn int_text(v: int) -> Seq<char> {
    if v < 0 {
        seq!['-'] + nat_text((-v) as nat)
    } else {
        nat_text(v as nat)
    }
}

/// Value of a run of decimal digits.
pub open spec fn digits_value(s: Seq<char>) -> int
    decreases s.len(),
{
    if s.len() == 0 {
        0
    } else {
        digits_value(s.drop_last()) * 10 + digit_value(s.last())
    }
}

pub open spec fn all_digits(s: Seq<char>) -> bool {
    forall|i: int| 0 <= i < s.len() ==> is_digit(#[trigger] s[i])
}

/// The integer that a text names: an optional `+` or `-`, then one or more digits.
pub open spec fn int_of_text(s: Seq<char>) -> Option<int> {
    let signed = s.len() > 0 && (s[0] == '-' || s[0] == '+');
    let body = if signed { s.drop_first() } else { s };
    if body.len() > 0 && all_digits(body) {
        if signed && s[0] == '-' {
            Some(-digits_value(body))
        } else {
            Some(digits_value(body))
        }
    } else {
        None
    }
}

/// The `i64` that a text names, when it names one in range.
pub open spec fn i64_of_text(s: Seq<char>) -> Option<i64> {
    match int_of_text(s) {
        Some(v) => if i64::MIN <= v <= i64::MAX {
            Some(v as i64)
        } else {
            None
        },
        None => None,
    }
}

/// A run of digits is worth at least any of its prefixes.
proof fn lemma_digits_value_grows(s: Seq<char>, k: int)
    requires
        0 <= k <= s.len(),
        all_digits(s),
    ensures
        digits_value(s.subrange(0, k)) <= digits_value(s),
        0 <= digits_value(s.subrange(0, k)),
    decreases s.len() - k,
{
    if k < s.len() {
        lemma_digits_value_grows(s, k + 1);
        let t = s.subrange(0, k + 1);
        assert(t.drop_last() =~= s.subrange(0, k));
        assert(is_digit(t.last()));
    } else {
        assert(s.subrange(0, k) =~= s);
        lemma_digits_nonnegative(s);
    }
}

proof fn lemma_digits_nonnegative(s: Seq<char>)
    requires
        all_digits(s),
    ensures
        0 <= digits_value(s),
    decreases s.len(),
{
    if s.len() > 0 {
        assert(all_digits(s.drop_last()));
        lemma_digits_nonnegative(s.drop_last());
        assert(is_digit(s[s.len() - 1]));
    }
}

/// Reads an integer text: an optional sign followed by digits, in range.
pub fn parse_i64(s: &str) -> (r: Option<i64>)
    ensures
        r == i64_of_text(s@),
{
    let n = s.unicode_len();
    if n == 0 {
        return None;
    }
    let c0 = s.get_char(0);
    let start: usize = if c0 == '-' || c0 == '+' {
        1
    } else {
        0
    };
    let ghost body = s@.subrange(start as int, n as int);
    proof {
        if start == 1 {
            assert(body =~= s@.drop_first());
        } else {
            assert(body =~= s@);
        }
    }
    if start == n {
        return None;
    }
    let limit: u64 = 9223372036854775808;
    let mut acc: u64 = 0;
    let mut i: usize = start;
    while i < n
        invariant
            n == s@.len(),
            n > 0,
            limit == 9223372036854775808u64,
            c0 == s@[0],
            start == (if c0 == '-' || c0 == '+' {
                1usize
            } else {
                0usize
            }),
            start <= i <= n,
            body == s@.subrange(start as int, n as int),
            body == (if c0 == '-' || c0 == '+' {
                s@.drop_first()
            } else {
                s@
            }),
            all_digits(body.subrange(0, i - start)),
            acc == digits_value(body.subrange(0, i - start)),
            acc <= limit,
        decreases n - i,
    {
        let c = s.get_char(i);
        let ghost k = (i - start) as int;
        proof {
            assert(body[k] == c);
        }
        if !('0' <= c && c <= '9') {
            proof {
                assert(!is_digit(body[k]));
                assert(!all_digits(body));
                assert(s@[0] == c0);
            }
            return None;
        }
        proof {
            assert(('0' as u32) == 48u32);
            assert(('9' as u32) == 57u32);
            assert(48 <= (c as u32) <= 57);
        }
        let d = (c as u32 - '0' as u32) as u64;
        assert(d <= 9 && d as int == digit_value(c));
        proof {
            let t = body.subrange(0, k + 1);
            assert(t.drop_last() =~= body.subrange(0, k));
            assert(t.last() == c);
            assert(all_digits(t));
        }
        if acc > (limit - d) / 10 {
            proof {
                let big = digits_value(body.subrange(0, k + 1));
                assert(big > 9223372036854775808int) by (nonlinear_arith)
                    requires
                        acc > (9223372036854775808int - d) / 10,
                        big == acc * 10 + d,
                        0 <= d <= 9,
                ;
                assert(s@[0] == c0);
                if all_digits(body) {
                    lemma_digits_value_grows(body, k + 1);
                    assert(digits_value(body) > 9223372036854775808int);
                    assert(int_of_text(s@) == Some(digits_value(body)) || int_of_text(s@) == Some(
                        -digits_value(body),
                    ));
                }
                assert(i64_of_text(s@) is None);
            }
            return None;
        }
        acc = acc * 10 + d;
        i += 1;
    }
    proof {
        assert(body.subrange(0, body.len() as int) =~= body);
    }
    if c0 == '-' {
        if acc == limit {
            Some(i64::MIN)
        } else {
            Some(-(acc as i64))
        }
    } else if acc < limit {
        Some(acc as i64)
    } else {
        None
    }
}

pub(crate) fn digit(d: u64) -> (c: char)
    requires
        d < 10,
    ensures
        c == digit_char(d as int),
{
    if d == 0 {
        '0'
    } else if d == 1 {
        '1'
    } else if d == 2 {
        '2'
    } else if d == 3 {
        '3'
    } else if d == 4 {
        '4'
    } else if d == 5 {
        '5'
    } else if d == 6 {
        '6'
    } else if d == 7 {
        '7'
    } else if d == 8 {
        '8'
    } else {
        '9'
    }
}

/// The digits of `n`.
pub fn nat_chars(n: u64) -> (r: Vec<char>)
    ensures
        r@ == nat_text(n as nat),
    decreases n,
{
    if n < 10 {
        let mut v: Vec<char> = Vec::new();
        v.push(digit(n));
        proof {
            assert(v@ =~= nat_text(n as nat));
        }
        v
    } else {
        let mut v = nat_chars(n / 10);
        v.push(digit(n % 10));
        v
    }
}

/// The decimal text of an integer.
pub fn i64_text(v: i64) -> (r: String)
    ensures
        r@ == int_text(v as int),
{
    let mut out: Vec<char> = Vec::new();
    let m: u64 = if v < 0 {
        out.push('-');
        (-(v as i128)) as u64
    } else {
        v as u64
    };
    let digits = nat_chars(m);
    let ghost start = out@;
    let mut j: usize = 0;
    while j < digits.len()
        invariant
            j <= digits@.len(),
            out@ =~= start + digits@.subrange(0, j as int),
        decreases digits@.len() - j,
    {
        out.push(digits[j]);
        j += 1;
    }
    proof {
        assert(digits@.subrange(0, digits@.len() as int) =~= digits@);
        assert(out@ =~= int_text(v as int));
    }
    string_of_chars(&out)
}

/// Relies on collecting chars into a `String`: the same characters in order.
#[verifier::external_body]
pub(crate) fn string_of_chars(v: &Vec<char>) -> (r: String)
    ensures
        r@ == v@,
{
    v.iter().collect()
}

} // verus!
