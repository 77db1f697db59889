//! Base-10 integer text: reading a signed 64-bit integer from a label and
//! writing an integer back as the label that should carry it.
use vstd::prelude::*;

verus! {

/// One more than the magnitude of the most negative 64-bit integer: a
/// saturation point for digit accumulation.
pub const DIGITS_CAP: u128 = 9223372036854775809;

pub open spec fn is_digit(c: char) -> bool {
    '0' <= c && c <= '9'
}

pub open spec fn digit_value(c: char) -> int {
    c as int - '0' as int
}

/// The value of a run of decimal digits, most significant first.
pub open spec fn digits_value(s: Seq<char>) -> int
    decreases s.len(),
{
    if s.len() == 0 {
        0
    } else {
        10 * digits_value(s.drop_last()) + digit_value(s.last())
    }
}

/// A non-empty run of decimal digits.
pub open spec fn all_digits(s: Seq<char>) -> bool {
    s.len() > 0 && forall|i: int| 0 <= i < s.len() ==> is_digit(#[trigger] s[i])
}

/// The integer written by `s`: an optional `+` or `-` followed by at least
/// one digit, and nothing else.
pub open spec fn signed_value(s: Seq<char>) -> Option<int> {
    if s.len() > 0 && s[0] == '-' && all_digits(s.skip(1)) {
        Some(-digits_value(s.skip(1)))
    } else if s.len() > 0 && s[0] == '+' && all_digits(s.skip(1)) {
        Some(digits_value(s.skip(1)))
    } else if all_digits(s) {
        Some(digits_value(s))
    } else {
        None
    }
}

/// The 64-bit integer written by `s`, if it is one and fits.
pub open spec fn parsed_i64(s: Seq<char>) -> Option<int> {
    match signed_value(s) {
        Some(v) => if i64::MIN <= v && v <= i64::MAX {
            Some(v)
        } else {
            None
        },
        None => None,
    }
}

pub open spec fn digit_char(d: nat) -> char {
    if d == 0 { '0' }
    else if d == 1 { '1' }
    else if d == 2 { '2' }
    else if d == 3 { '3' }
    else if d == 4 { '4' }
    else if d == 5 { '5' }
    else if d == 6 { '6' }
    else if d == 7 { '7' }
    else if d == 8 { '8' }
    else { '9' }
}

/// The shortest decimal digits of a natural number.
pub open spec fn nat_digits(n: nat) -> Seq<char>
    decreases n,
{
    if n < 10 {
        seq![digit_char(n)]
    } else {
        nat_digits(n / 10) + seq![digit_char(n % 10)]
    }
}

/// The canonical decimal text of an integer: a `-` for negatives, no `+`,
/// no leading zeros.
pub open spec fn decimal_of(n: int) -> Seq<char> {
    if n < 0 {
        seq!['-'] + nat_digits((-n) as nat)
    } else {
        nat_digits(n as nat)
    }
}

/// Reads `s` as a signed 64-bit integer.
pub fn parse_i64(s: &str) -> (r: Option<i64>)
    ensures
        match r {
            Some(v) => parsed_i64(s@) == Some(v as int),
            None => parsed_i64(s@) is None,
        },
{
    let len = s.unicode_len();
    if len == 0 {
        return None;
    }
    let first = s.get_char(0);
    let negative = first == '-';
    let start: usize = if first == '-' || first == '+' { 1 } else { 0 };
    if start == len {
        assert(!all_digits(s@.skip(1)));
        return None;
    }
    let mut acc: u128 = 0;
    let mut i: usize = start;
    while i < len
        invariant
            start <= i <= len,
            len == s@.len(),
            s@[0] == first,
            start == 1 <==> (first == '-' || first == '+'),
            start <= 1,
            negative == (first == '-'),
            acc as int == if digits_value(s@.subrange(start as int, i as int)) < DIGITS_CAP {
                digits_value(s@.subrange(start as int, i as int))
            } else {
                DIGITS_CAP as int
            },
            forall|j: int| start <= j < i ==> is_digit(#[trigger] s@[j]),
        decreases len - i,
    {
        let c = s.get_char(i);
        if !('0' <= c && c <= '9') {
            assert(s@.skip(start as int)[i - start] == c);
            assert(!all_digits(s@.skip(start as int)));
            assert(s@[i as int] == c);
            assert(!is_digit(s@[0]) || start == 0);
            assert(!all_digits(s@));
            return None;
        }
        let d = (c as u32 - '0' as u32) as u128;
        let ghost prev = s@.subrange(start as int, i as int);
        let ghost next = s@.subrange(start as int, i + 1);
        assert(next.drop_last() =~= prev);
        let grown = acc * 10 + d;
        acc = if grown < DIGITS_CAP { grown } else { DIGITS_CAP };
        i = i + 1;
    }
    let ghost rest = s@.subrange(start as int, len as int);
    assert(rest =~= s@.skip(start as int));
    assert(all_digits(rest));
    assert(s@[0] == first);
    if start == 0 {
        assert(s@.skip(0) =~= s@);
    }
    if negative {
        if acc <= 9223372036854775808 {
            Some((0 - acc as i128) as i64)
        } else {
            None
        }
    } else if acc <= 9223372036854775807 {
        Some(acc as i64)
    } else {
        None
    }
}

/// The one-digit text of `d`.
fn digit_text(d: u64) -> (r: &'static str)
    requires
        d < 10,
    ensures
        r@ == seq![digit_char(d as nat)],
{
    proof {
        reveal_strlit("0");
        reveal_strlit("1");
        reveal_strlit("2");
        reveal_strlit("3");
        reveal_strlit("4");
        reveal_strlit("5");
        reveal_strlit("6");
        reveal_strlit("7");
        reveal_strlit("8");
        reveal_strlit("9");
    }
    if d == 0 {
        "0"
    } else if d == 1 {
        "1"
    } else if d == 2 {
        "2"
    } else if d == 3 {
        "3"
    } else if d == 4 {
        "4"
    } else if d == 5 {
        "5"
    } else if d == 6 {
        "6"
    } else if d == 7 {
        "7"
    } else if d == 8 {
        "8"
    } else {
        assert(seq!['9'] =~= "9"@);
        "9"
    }
}

/// Writes `n` in base 10.
pub fn decimal_text(n: i64) -> (r: String)
    ensures
        r@ == decimal_of(n as int),
{
    let magnitude: u64 = if n < 0 { (0 - n as i128) as u64 } else { n as u64 };
    let mut m: u64 = magnitude;
    let mut text = String::new();
    assert(nat_digits(magnitude as nat) + text@ =~= nat_digits(magnitude as nat));
    loop
        invariant_except_break
            nat_digits(magnitude as nat) == nat_digits(m as nat) + text@,
        ensures
            text@ == nat_digits(magnitude as nat),
        decreases m,
    {
        let digit = String::from_str(digit_text(m % 10));
        if m < 10 {
            assert(nat_digits(m as nat) == seq![digit_char(m as nat)]);
            text = digit.concat(text.as_str());
            assert(nat_digits(magnitude as nat) =~= text@);
            break;
        }
        text = digit.concat(text.as_str());
        assert(nat_digits(m as nat) == nat_digits((m / 10) as nat) + seq![digit_char((m % 10) as nat)]);
        assert(nat_digits(magnitude as nat) =~= nat_digits((m / 10) as nat) + text@);
        m = m / 10;
    }
    if n < 0 {
        let sign = String::from_str("-");
        proof {
            reveal_strlit("-");
        }
        sign.concat(text.as_str())
    } else {
        text
    }
}

} // verus!
