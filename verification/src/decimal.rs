//! Decimal numerals: which integer a text denotes, and which text writes an
//! integer.
//!
//! A numeral is an optional sign followed by one or more of the digits `0` to
//! `9`. Nothing else is accepted: no blanks, no separators, no digits of other
//! scripts. A `-` is a sign only where negative values are asked for.

use vstd::prelude::*;
use vstd::string::*;

verus! {

/// Whether `c` is one of the ten digits.
pub open spec fn is_digit(c: char) -> bool {
    '0' <= c <= '9'
}

/// The number that the digit `c` stands for.
pub open spec fn digit_value(c: char) -> int {
    c as int - '0' as int
}

/// The digit that stands for `d`, for `d` from 0 to 9.
pub open spec fn digit_char(d: int) -> char {
    (d + '0' as int) as char
}

/// Whether every character of `s` is a digit.
pub open spec fn all_digits(s: Seq<char>) -> bool {
    forall|i: int| 0 <= i < s.len() ==> is_digit(#[trigger] s[i])
}

/// The number that a run of digits denotes, the first digit weighing most.
pub open spec fn digits_value(s: Seq<char>) -> int
    decreases s.len(),
{
    if s.len() == 0 {
        0
    } else {
        10 * digits_value(s.drop_last()) + digit_value(s.last())
    }
}

/// The number that an unsigned numeral denotes, if `s` is one.
pub open spec fn magnitude(s: Seq<char>) -> Option<int> {
    if s.len() > 0 && all_digits(s) {
        Some(digits_value(s))
    } else {
        None
    }
}

/// The integer that the numeral `s` denotes, if `s` is one. A leading `+` is
/// always a sign; a leading `-` is one only if `signed`.
pub open spec fn numeral_value(s: Seq<char>, signed: bool) -> Option<int> {
    if s.len() > 0 && s[0] == '+' {
        magnitude(s.skip(1))
    } else if signed && s.len() > 0 && s[0] == '-' {
        match magnitude(s.skip(1)) {
            Some(m) => Some(-m),
            None => None,
        }
    } else {
        magnitude(s)
    }
}

/// `value`, if it is there and lies between `lowest` and `highest`.
pub open spec fn within(value: Option<int>, lowest: int, highest: int) -> Option<int> {
    match value {
        Some(v) if lowest <= v <= highest => Some(v),
        _ => None,
    }
}

/// The `i32` that the numeral `s` denotes, if `s` is a numeral of one.
pub open spec fn denoted_i32(s: Seq<char>) -> Option<i32> {
    match within(numeral_value(s, true), i32::MIN as int, i32::MAX as int) {
        Some(v) => Some(v as i32),
        None => None,
    }
}

/// The `usize` that the numeral `s` denotes, if `s` is a numeral of one. No
/// numeral with a `-` is, not even `-0`.
pub open spec fn denoted_usize(s: Seq<char>) -> Option<usize> {
    match within(numeral_value(s, false), 0, usize::MAX as int) {
        Some(v) => Some(v as usize),
        None => None,
    }
}

/// The digits that write the natural number `n`, without leading zeros.
pub open spec fn natural_text(n: nat) -> Seq<char>
    decreases n,
{
    if n < 10 {
        seq![digit_char(n as int)]
    } else {
        natural_text(n / 10).push(digit_char((n % 10) as int))
    }
}

/// The numeral that writes the integer `v`: a `-` before the digits of a
/// negative one, no sign otherwise.
pub open spec fn integer_text(v: int) -> Seq<char> {
    if v < 0 {
        seq!['-'] + natural_text((-v) as nat)
    } else {
        natural_text(v as nat)
    }
}

/// A longer run of digits denotes no less than any of its beginnings.
pub proof fn lemma_digits_value_grows(s: Seq<char>, k: int)
    requires
        all_digits(s),
        0 <= k <= s.len(),
    ensures
        0 <= digits_value(s.take(k)) <= digits_value(s),
    decreases s.len() - k,
{
    if k == s.len() {
        assert(s.take(k) =~= s);
        lemma_digits_value_nonnegative(s);
    } else {
        lemma_digits_value_grows(s, k + 1);
        assert(s.take(k + 1).drop_last() =~= s.take(k));
        lemma_digits_value_nonnegative(s.take(k));
    }
}

/// A run of digits denotes a natural number.
pub proof fn lemma_digits_value_nonnegative(s: Seq<char>)
    requires
        all_digits(s),
    ensures
        0 <= digits_value(s),
    decreases s.len(),
{
    if s.len() > 0 {
        lemma_digits_value_nonnegative(s.drop_last());
    }
}

/// The characters of `text`, one by one.
fn characters(text: &str) -> (v: Vec<char>)
    ensures
        v@ == text@,
{
    let mut v: Vec<char> = Vec::new();
    for c in it: text.chars()
        invariant
            it.seq() == text@,
            v@ == it.seq().take(it.index() as int),
    {
        v.push(c);
    }
    v
}

/// Reads the digits of `chars` from `start` on as a number that must not
/// exceed `limit`.
fn read_digits(chars: &Vec<char>, start: usize, limit: u128) -> (r: Option<u128>)
    requires
        start <= chars.len(),
        limit <= u64::MAX,
    ensures
        match r {
            Some(m) => within(magnitude(chars@.skip(start as int)), 0, limit as int) == Some(
                m as int,
            ),
            None => within(magnitude(chars@.skip(start as int)), 0, limit as int) is None,
        },
{
    let ghost digits = chars@.skip(start as int);
    let count: usize = chars.len();
    if start == count {
        return None;
    }
    let mut value: u128 = 0;
    let mut at: usize = start;
    while at < count
        invariant
            start <= at <= count,
            count == chars.len(),
            digits == chars@.skip(start as int),
            limit <= u64::MAX,
            all_digits(digits.take(at - start)),
            value == digits_value(digits.take(at - start)),
            value <= limit,
        decreases count - at,
    {
        let c: char = chars[at];
        assert(digits.take(at - start + 1).drop_last() =~= digits.take(at - start));
        if !('0' <= c && c <= '9') {
            assert(!is_digit(digits[at - start]));
            return None;
        }
        let digit: u32 = c as u32 - '0' as u32;
        value = value * 10 + digit as u128;
        if value > limit {
            proof {
                if all_digits(digits) {
                    lemma_digits_value_grows(digits, at - start + 1);
                }
            }
            return None;
        }
        at = at + 1;
    }
    assert(digits.take(at - start) =~= digits);
    Some(value)
}

/// Reads `text` as a numeral and returns the integer it denotes, if that lies
/// between `lowest` and `highest`. Negative numerals are read only if
/// `signed`.
fn read_integer(text: &str, signed: bool, lowest: i128, highest: i128) -> (r: Option<i128>)
    requires
        -(u64::MAX as int) <= lowest <= 0 <= highest <= u64::MAX,
    ensures
        match r {
            Some(v) => within(numeral_value(text@, signed), lowest as int, highest as int) == Some(
                v as int,
            ),
            None => within(numeral_value(text@, signed), lowest as int, highest as int) is None,
        },
{
    let chars = characters(text);
    proof {
        if all_digits(chars@) {
            lemma_digits_value_nonnegative(chars@);
        }
        if chars@.len() > 0 && all_digits(chars@.skip(1)) {
            lemma_digits_value_nonnegative(chars@.skip(1));
        }
    }
    if chars.len() > 0 && chars[0] == '+' {
        match read_digits(&chars, 1, highest as u128) {
            Some(m) => Some(m as i128),
            None => None,
        }
    } else if signed && chars.len() > 0 && chars[0] == '-' {
        match read_digits(&chars, 1, (0 - lowest) as u128) {
            Some(m) => Some(0 - (m as i128)),
            None => None,
        }
    } else {
        assert(chars@.skip(0) =~= chars@);
        match read_digits(&chars, 0, highest as u128) {
            Some(m) => Some(m as i128),
            None => None,
        }
    }
}

/// Reads `text` as a numeral of an `i32`. `None` if `text` is no numeral, or
/// if what it denotes does not fit.
pub fn parse_i32(text: &str) -> (r: Option<i32>)
    ensures
        r == denoted_i32(text@),
{
    match read_integer(text, true, i32::MIN as i128, i32::MAX as i128) {
        Some(v) => Some(v as i32),
        None => None,
    }
}

/// Reads `text` as a numeral of a `usize`. `None` if `text` is no numeral
/// (one with a `-` is none), or if what it denotes does not fit.
pub fn parse_usize(text: &str) -> (r: Option<usize>)
    ensures
        r == denoted_usize(text@),
{
    match read_integer(text, false, 0, usize::MAX as i128) {
        Some(v) => Some(v as usize),
        None => None,
    }
}

/// The text of a single digit.
fn digit_text(d: u64) -> (s: &'static str)
    requires
        d < 10,
    ensures
        s@ == seq![digit_char(d as int)],
{
    proof {
        reveal_strlit("0");
        reveal_strlit("1");
        reveal_strlit("2");
        reveal_strlit("3");
        reveal_strlit("4");
        reveal_strlit("5");
        reveal_strlit("6");
        reveal_strlit("7");
        reveal_strlit("8");
        reveal_strlit("9");
    }
    let s = if d == 0 {
        "0"
    } else if d == 1 {
        "1"
    } else if d == 2 {
        "2"
    } else if d == 3 {
        "3"
    } else if d == 4 {
        "4"
    } else if d == 5 {
        "5"
    } else if d == 6 {
        "6"
    } else if d == 7 {
        "7"
    } else if d == 8 {
        "8"
    } else {
        "9"
    };
    s
}

/// Appends the digits of `n` to `out`.
fn write_natural(out: &mut String, n: u64)
    ensures
        final(out)@ == old(out)@ + natural_text(n as nat),
    decreases n,
{
    if n >= 10 {
        write_natural(out, n / 10);
    }
    out.append(digit_text(n % 10));
}

/// Appends the numeral of `v` to `out`.
pub fn write_i32(out: &mut String, v: i32)
    ensures
        final(out)@ == old(out)@ + integer_text(v as int),
{
    if v < 0 {
        proof {
            reveal_strlit("-");
        }
        out.append("-");
        write_natural(out, (0 - v as i64) as u64);
    } else {
        write_natural(out, v as u64);
    }
}

} // verus!
