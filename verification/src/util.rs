//! Conversion of account identifiers.

use crate::text::{chars_of, string_of};
use vstd::prelude::*;

verus! {

/// What is added to the number of a short account identifier to get the
/// long one.
pub const STEAMID64_BASE: u64 = 76561197960265728;

/// `s` without the closing brackets at its end.
pub open spec fn trimmed(s: Seq<char>) -> Seq<char>
    decreases s.len(),
{
    if s.len() > 0 && s.last() == ']' {
        trimmed(s.drop_last())
    } else {
        s
    }
}

/// Index of the first colon of `s`; the length of `s` where it has none.
pub open spec fn first_colon(s: Seq<char>) -> int
    decreases s.len(),
{
    if s.len() == 0 || s[0] == ':' {
        0
    } else {
        1 + first_colon(s.skip(1))
    }
}

/// The `n`-th of the segments that the colons divide `s` into, counted from
/// 0, if `s` has that many.
pub open spec fn segment(s: Seq<char>, n: nat) -> Option<Seq<char>>
    decreases n,
{
    let c = first_colon(s);
    if n == 0 {
        Some(s.take(c))
    } else if c >= s.len() {
        None
    } else {
        segment(s.skip(c + 1), (n - 1) as nat)
    }
}

/// The value of a decimal digit.
pub open spec fn digit_value(c: char) -> Option<nat> {
    if c == '0' {
        Some(0)
    } else if c == '1' {
        Some(1)
    } else if c == '2' {
        Some(2)
    } else if c == '3' {
        Some(3)
    } else if c == '4' {
        Some(4)
    } else if c == '5' {
        Some(5)
    } else if c == '6' {
        Some(6)
    } else if c == '7' {
        Some(7)
    } else if c == '8' {
        Some(8)
    } else if c == '9' {
        Some(9)
    } else {
        None
    }
}

/// The decimal digit with the value `d`.
pub open spec fn digit_char(d: nat) -> char {
    if d == 0 {
        '0'
    } else if d == 1 {
        '1'
    } else if d == 2 {
        '2'
    } else if d == 3 {
        '3'
    } else if d == 4 {
        '4'
    } else if d == 5 {
        '5'
    } else if d == 6 {
        '6'
    } else if d == 7 {
        '7'
    } else if d == 8 {
        '8'
    } else {
        '9'
    }
}

/// Every character of `s` is a decimal digit.
pub open spec fn all_digits(s: Seq<char>) -> bool {
    forall|i: int| 0 <= i < s.len() ==> digit_value(#[trigger] s[i]) is Some
}

/// The number that the decimal digits `s` write.
pub open spec fn digits_value(s: Seq<char>) -> nat
    decreases s.len(),
{
    if s.len() == 0 {
        0
    } else {
        digits_value(s.drop_last()) * 10 + digit_value(s.last()).unwrap()
    }
}

/// The number that `s` writes: one or more decimal digits, with or without a
/// plus sign in front, that do not go beyond 64 bits.
pub open spec fn number(s: Seq<char>) -> Option<u64> {
    let digits = if s.len() > 0 && s[0] == '+' {
        s.skip(1)
    } else {
        s
    };
    if digits.len() > 0 && all_digits(digits) && digits_value(digits) <= u64::MAX {
        Some(digits_value(digits) as u64)
    } else {
        None
    }
}

/// `n` written in decimal digits.
pub open spec fn decimal(n: nat) -> Seq<char>
    decreases n,
{
    if n < 10 {
        seq![digit_char(n)]
    } else {
        decimal(n / 10).push(digit_char(n % 10))
    }
}

/// The long form of the short account identifier `s`, such as `[U:1:1234]`:
/// the number in its third segment plus [`STEAMID64_BASE`], in decimal
/// digits. There is none where `s` has no third segment, where that segment
/// is no number, or where the sum goes beyond 64 bits.
pub open spec fn steamid64_of(s: Seq<char>) -> Option<Seq<char>> {
    match segment(trimmed(s), 2) {
        Some(third) => match number(third) {
            Some(id) => if id + STEAMID64_BASE <= u64::MAX {
                Some(decimal((id + STEAMID64_BASE) as nat))
            } else {
                None
            },
            None => None,
        },
        None => None,
    }
}

/// A colon-free stretch that ends at a colon or at the end is what
/// `first_colon` measures.
pub proof fn lemma_first_colon(s: Seq<char>, k: int)
    requires
        0 <= k <= s.len(),
        forall|j: int| 0 <= j < k ==> s[j] != ':',
        k == s.len() || s[k] == ':',
    ensures
        first_colon(s) == k,
    decreases k,
{
    if k > 0 {
        let rest = s.skip(1);
        lemma_first_colon(rest, k - 1);
    }
}

/// Digits written behind a number do not make it smaller.
pub proof fn lemma_digits_value_grows(s: Seq<char>, k: int)
    requires
        0 <= k <= s.len(),
        all_digits(s),
    ensures
        digits_value(s.take(k)) <= digits_value(s),
    decreases s.len() - k,
{
    if k < s.len() {
        let front = s.drop_last();
        assert(front.take(k) =~= s.take(k));
        lemma_digits_value_grows(front, k);
        assert(digits_value(front) * 10 >= digits_value(front)) by (nonlinear_arith);
    } else {
        assert(s.take(k) =~= s);
    }
}

/// The length of `chars` without the closing brackets at its end.
fn trimmed_len(chars: &Vec<char>) -> (r: usize)
    ensures
        r <= chars.len(),
        chars@.take(r as int) == trimmed(chars@),
{
    let mut end = chars.len();
    assert(chars@.take(end as int) =~= chars@);
    while end > 0 && chars[end - 1] == ']'
        invariant
            end <= chars.len(),
            trimmed(chars@.take(end as int)) == trimmed(chars@),
        decreases end,
    {
        assert(chars@.take(end as int).drop_last() =~= chars@.take(end - 1));
        end -= 1;
    }
    end
}

/// Index of the first colon of `chars` between `from` and `end`, or `end`.
fn find_colon(chars: &Vec<char>, from: usize, end: usize) -> (r: usize)
    requires
        from <= end <= chars.len(),
    ensures
        from <= r <= end,
        r - from == first_colon(chars@.subrange(from as int, end as int)),
{
    let mut i = from;
    while i < end && chars[i] != ':'
        invariant
            from <= i <= end <= chars.len(),
            forall|j: int| from <= j < i ==> chars@[j] != ':',
        decreases end - i,
    {
        i += 1;
    }
    proof {
        lemma_first_colon(chars@.subrange(from as int, end as int), i - from);
    }
    i
}

/// The value of the decimal digit `c`, if it is one.
fn digit_of(c: char) -> (r: Option<u64>)
    ensures
        match r {
            Some(d) => digit_value(c) == Some(d as nat),
            None => digit_value(c) is None,
        },
{
    if c == '0' {
        Some(0)
    } else if c == '1' {
        Some(1)
    } else if c == '2' {
        Some(2)
    } else if c == '3' {
        Some(3)
    } else if c == '4' {
        Some(4)
    } else if c == '5' {
        Some(5)
    } else if c == '6' {
        Some(6)
    } else if c == '7' {
        Some(7)
    } else if c == '8' {
        Some(8)
    } else if c == '9' {
        Some(9)
    } else {
        None
    }
}

/// The decimal digit with the value `d`.
fn char_of_digit(d: u64) -> (r: char)
    requires
        d < 10,
    ensures
        r == digit_char(d as nat),
{
    if d == 0 {
        '0'
    } else if d == 1 {
        '1'
    } else if d == 2 {
        '2'
    } else if d == 3 {
        '3'
    } else if d == 4 {
        '4'
    } else if d == 5 {
        '5'
    } else if d == 6 {
        '6'
    } else if d == 7 {
        '7'
    } else if d == 8 {
        '8'
    } else {
        '9'
    }
}

/// Reads the number that the characters of `chars` from `from` to `end`
/// write.
fn parse_number(chars: &Vec<char>, from: usize, end: usize) -> (r: Option<u64>)
    requires
        from <= end <= chars.len(),
    ensures
        r == number(chars@.subrange(from as int, end as int)),
{
    let ghost s = chars@.subrange(from as int, end as int);
    let start = if from < end && chars[from] == '+' {
        from + 1
    } else {
        from
    };
    let ghost digits = chars@.subrange(start as int, end as int);
    if start == end {
        return None;
    }
    let mut acc: u64 = 0;
    let mut i = start;
    while i < end
        invariant
            start <= i <= end <= chars.len(),
            start < end,
            s == chars@.subrange(from as int, end as int),
            digits == chars@.subrange(start as int, end as int),
            digits == (if s.len() > 0 && s[0] == '+' {
                s.skip(1)
            } else {
                s
            }),
            all_digits(digits.take(i - start)),
            acc == digits_value(digits.take(i - start)),
        decreases end - i,
    {
        let ghost seen = digits.take(i - start);
        let ghost next = digits.take(i + 1 - start);
        assert(next.drop_last() =~= seen);
        assert(next.last() == chars@[i as int]);
        let d = match digit_of(chars[i]) {
            Some(d) => d,
            None => {
                return None;
            },
        };
        let shifted = match acc.checked_mul(10) {
            Some(v) => v,
            None => {
                proof {
                    if all_digits(digits) {
                        lemma_digits_value_grows(digits, i + 1 - start);
                    }
                }
                return None;
            },
        };
        acc = match shifted.checked_add(d) {
            Some(v) => v,
            None => {
                proof {
                    if all_digits(digits) {
                        lemma_digits_value_grows(digits, i + 1 - start);
                    }
                }
                return None;
            },
        };
        i += 1;
    }
    assert(digits.take(end - start) =~= digits);
    Some(acc)
}

/// Writes `n` in decimal digits.
fn decimal_chars(n: u64) -> (r: Vec<char>)
    ensures
        r@ == decimal(n as nat),
    decreases n,
{
    if n < 10 {
        let mut v: Vec<char> = Vec::new();
        v.push(char_of_digit(n));
        v
    } else {
        let mut v = decimal_chars(n / 10);
        v.push(char_of_digit(n % 10));
        v
    }
}

/// Converts a short account identifier, such as `[U:1:1234]`, to the long
/// form.
pub fn steamid_32_to_64(steamid32: &str) -> (r: Option<String>)
    ensures
        crate::state::opt_text(r) == steamid64_of(steamid32@),
{
    let chars = chars_of(steamid32);
    let end = trimmed_len(&chars);
    let ghost t = chars@.take(end as int);
    let c0 = find_colon(&chars, 0, end);
    if c0 == end {
        assert(segment(t, 2) is None) by {
            reveal_with_fuel(segment, 3);
        }
        return None;
    }
    assert(t.skip(c0 + 1) =~= chars@.subrange(c0 + 1, end as int));
    let c1 = find_colon(&chars, c0 + 1, end);
    if c1 == end {
        assert(segment(t, 2) is None) by {
            reveal_with_fuel(segment, 3);
        }
        return None;
    }
    assert(t.skip(c0 + 1).skip(c1 - c0) =~= chars@.subrange(c1 + 1, end as int));
    let c2 = find_colon(&chars, c1 + 1, end);
    assert(segment(t, 2) == Some(chars@.subrange(c1 + 1, c2 as int))) by {
        reveal_with_fuel(segment, 3);
    }
    let id32 = match parse_number(&chars, c1 + 1, c2) {
        Some(id32) => id32,
        None => {
            return None;
        },
    };
    match id32.checked_add(STEAMID64_BASE) {
        Some(id64) => Some(string_of(&decimal_chars(id64))),
        None => None,
    }
}

} // verus!
