//! Decimal numbers as text: reading unsigned and signed integers, and writing
//! an unsigned integer.

use crate::text::chars_of;
use vstd::prelude::*;

verus! {

/// Whether a character is one of the ten decimal digits.
pub open spec fn is_digit(c: char) -> bool {
    0x30 <= c as u32 <= 0x39
}

/// The number that a decimal digit denotes.
pub open spec fn digit_value(c: char) -> nat {
    (c as u32 - 0x30) as nat
}

/// Whether every character is a decimal digit.
pub open spec fn all_digits(s: Seq<char>) -> bool {
    forall|i: int| 0 <= i < s.len() ==> is_digit(#[trigger] s[i])
}

/// The number that a sequence of decimal digits denotes.
pub open spec fn digits_value(s: Seq<char>) -> nat
    decreases s.len(),
{
    if s.len() == 0 {
        0
    } else {
        digits_value(s.drop_last()) * 10 + digit_value(s.last())
    }
}

/// A number is at least the number that any prefix of its digits denotes.
pub proof fn lemma_prefix_value(s: Seq<char>, k: int)
    requires
        0 <= k <= s.len(),
    ensures
        digits_value(s.take(k)) <= digits_value(s),
    decreases s.len() - k,
{
    if k == s.len() {
        assert(s.take(k) =~= s);
    } else {
        assert(s.drop_last().take(k) =~= s.take(k));
        lemma_prefix_value(s.drop_last(), k);
    }
}

/// The digits of `v` from `start` on, read as a number of at most `limit`.
pub open spec fn bounded_digits(d: Seq<char>, limit: nat) -> Option<nat> {
    if d.len() > 0 && all_digits(d) && digits_value(d) <= limit {
        Some(digits_value(d))
    } else {
        None
    }
}

fn parse_digits(v: &Vec<char>, start: usize, limit: u64) -> (r: Option<u64>)
    requires
        start <= v.len(),
        limit >= 9,
    ensures
        match bounded_digits(v@.skip(start as int), limit as nat) {
            Some(n) => r == Some(n as u64),
            None => r is None,
        },
{
    let n = v.len();
    if start == n {
        return None;
    }
    let ghost d = v@.skip(start as int);
    let mut acc: u64 = 0;
    let mut i: usize = start;
    while i < n
        invariant
            start <= i <= n == v.len(),
            limit >= 9,
            d == v@.skip(start as int),
            all_digits(d.take(i - start)),
            acc == digits_value(d.take(i - start)),
            acc <= limit,
        decreases n - i,
    {
        let c: u32 = v[i] as u32;
        assert(d[i - start] == v@[i as int]);
        if c < 0x30 || c > 0x39 {
            return None;
        }
        let dv: u64 = (c - 0x30) as u64;
        proof {
            let p = d.take(i + 1 - start);
            assert(p.drop_last() =~= d.take(i - start));
            assert(p.last() == d[i - start]);
            assert(digits_value(p) == acc * 10 + dv);
            assert forall|j: int| 0 <= j < p.len() implies is_digit(#[trigger] p[j]) by {
                if j < i - start {
                    assert(d.take(i - start)[j] == p[j]);
                }
            }
            lemma_prefix_value(d, i + 1 - start);
        }
        if acc > (limit - dv) / 10 {
            return None;
        }
        acc = acc * 10 + dv;
        i += 1;
    }
    assert(d.take(n - start) =~= d);
    Some(acc)
}

/// What `text` denotes as a `u64`: an optional `+`, then one or more decimal
/// digits whose number fits.
pub open spec fn parsed_u64(text: Seq<char>) -> Option<u64> {
    let d = if text.len() > 0 && text[0] == '+' {
        text.skip(1)
    } else {
        text
    };
    match bounded_digits(d, u64::MAX as nat) {
        Some(n) => Some(n as u64),
        None => None,
    }
}

/// Reads an unsigned number.
pub fn parse_u64(text: &str) -> (r: Option<u64>)
    ensures
        r == parsed_u64(text@),
{
    let v = chars_of(text);
    let start: usize = if v.len() > 0 && v[0] == '+' {
        1
    } else {
        0
    };
    assert(v@.skip(0) =~= v@);
    parse_digits(&v, start, u64::MAX)
}

/// What `text` denotes as an `i32`: an optional sign, then one or more
/// decimal digits whose signed number fits.
pub open spec fn parsed_i32(text: Seq<char>) -> Option<i32> {
    let negative = text.len() > 0 && text[0] == '-';
    let d = if text.len() > 0 && (text[0] == '+' || text[0] == '-') {
        text.skip(1)
    } else {
        text
    };
    match bounded_digits(d, 0x8000_0000) {
        Some(n) => if negative {
            Some((-n) as i32)
        } else if n < 0x8000_0000 {
            Some(n as i32)
        } else {
            None
        },
        None => None,
    }
}

/// Reads a signed number.
pub fn parse_i32(text: &str) -> (r: Option<i32>)
    ensures
        r == parsed_i32(text@),
{
    let v = chars_of(text);
    let negative = v.len() > 0 && v[0] == '-';
    let start: usize = if v.len() > 0 && (v[0] == '+' || v[0] == '-') {
        1
    } else {
        0
    };
    assert(v@.skip(0) =~= v@);
    match parse_digits(&v, start, 0x8000_0000) {
        Some(n) => {
            if negative {
                if n == 0x8000_0000 {
                    Some(i32::MIN)
                } else {
                    Some(-(n as i32))
                }
            } else if n < 0x8000_0000 {
                Some(n as i32)
            } else {
                None
            }
        },
        None => None,
    }
}

/// The character for one decimal digit.
pub open spec fn digit_char(d: nat) -> char {
    if d == 0 {
        '0'
    } else if d == 1 {
        '1'
    } else if d == 2 {
        '2'
    } else if d == 3 {
        '3'
    } else if d == 4 {
        '4'
    } else if d == 5 {
        '5'
    } else if d == 6 {
        '6'
    } else if d == 7 {
        '7'
    } else if d == 8 {
        '8'
    } else {
        '9'
    }
}

/// The decimal digits of `n`, without leading zeros.
pub open spec fn decimal(n: nat) -> Seq<char>
    decreases n,
{
    if n < 10 {
        seq![digit_char(n)]
    } else {
        decimal(n / 10).push(digit_char(n % 10))
    }
}

fn digit(d: u64) -> (c: char)
    requires
        d < 10,
    ensures
        c == digit_char(d as nat),
{
    match d {
        0 => '0',
        1 => '1',
        2 => '2',
        3 => '3',
        4 => '4',
        5 => '5',
        6 => '6',
        7 => '7',
        8 => '8',
        _ => '9',
    }
}

/// Appends the decimal digits of `n` to `out`.
pub fn push_decimal(out: &mut Vec<char>, n: u64)
    ensures
        final(out)@ == old(out)@ + decimal(n as nat),
    decreases n,
{
    if n >= 10 {
        push_decimal(out, n / 10);
    }
    out.push(digit(n % 10));
    assert(out@ =~= old(out)@ + decimal(n as nat));
}

/// Reading back the digits that were written for a number gives that number.
pub proof fn lemma_decimal_round_trip(n: nat)
    ensures
        all_digits(decimal(n)),
        decimal(n).len() > 0,
        digits_value(decimal(n)) == n,
    decreases n,
{
    if n < 10 {
        let s = decimal(n);
        assert(s.drop_last() =~= Seq::<char>::empty());
        assert(digits_value(s.drop_last()) == 0);
    } else {
        lemma_decimal_round_trip(n / 10);
        let s = decimal(n);
        assert(s.drop_last() =~= decimal(n / 10));
        assert forall|i: int| 0 <= i < s.len() implies is_digit(#[trigger] s[i]) by {
            if i < s.len() - 1 {
                assert(s[i] == decimal(n / 10)[i]);
            }
        }
    }
}

/// Whether a character is a sign.
pub open spec fn is_sign(c: char) -> bool {
    c == '+' || c == '-'
}

/// The index behind the digits that stand in `s` from index `i` on.
pub open spec fn digits_end(s: Seq<char>, i: int) -> int
    decreases s.len() - i,
{
    if 0 <= i < s.len() && is_digit(s[i]) {
        digits_end(s, i + 1)
    } else {
        i
    }
}

/// The lower-case form of a letter of the Latin alphabet; any other
/// character is left as it is.
pub open spec fn lower(c: char) -> u32 {
    if 0x41 <= c as u32 <= 0x5A {
        (c as u32 + 0x20) as u32
    } else {
        c as u32
    }
}

/// Whether `text` is `word`, whatever the case of its letters. `word` is in
/// lower case.
pub open spec fn is_word(text: Seq<char>, word: Seq<char>) -> bool {
    text.len() == word.len() && forall|i: int|
        0 <= i < text.len() ==> lower(#[trigger] text[i]) == word[i] as u32
}

/// Whether the text from index `c` on is an exponent: `e` or `E`, an
/// optional sign, and one or more digits.
pub open spec fn is_exponent(s: Seq<char>, c: int) -> bool {
    &&& 0 <= c < s.len()
    &&& (s[c] == 'e' || s[c] == 'E')
    &&& {
        let d = if c + 1 < s.len() && is_sign(s[c + 1]) {
            c + 2
        } else {
            c + 1
        };
        d < s.len() && digits_end(s, d) == s.len()
    }
}

/// Whether the text from index `a` on is a number: digits, with a point
/// before, among or behind them or without one, and an optional exponent.
pub open spec fn is_number(s: Seq<char>, a: int) -> bool {
    let b = digits_end(s, a);
    let pointed = b < s.len() && s[b] == '.';
    let c = if pointed {
        digits_end(s, b + 1)
    } else {
        b
    };
    let digits = if pointed {
        c - a - 1
    } else {
        c - a
    };
    digits >= 1 && (c == s.len() || is_exponent(s, c))
}

/// Whether `text` denotes a floating-point number: an optional sign, and
/// then a number or one of the words `inf`, `infinity` and `nan` in any
/// case.
pub open spec fn is_float_literal(text: Seq<char>) -> bool {
    let a: int = if text.len() > 0 && is_sign(text[0]) {
        1
    } else {
        0
    };
    let body = text.skip(a);
    is_word(body, "inf"@) || is_word(body, "infinity"@) || is_word(body, "nan"@) || is_number(
        text,
        a,
    )
}

fn scan_digits(v: &Vec<char>, from: usize) -> (end: usize)
    requires
        from <= v.len(),
    ensures
        from <= end <= v.len(),
        end == digits_end(v@, from as int),
{
    let mut i: usize = from;
    while i < v.len() && 0x30 <= v[i] as u32 && v[i] as u32 <= 0x39
        invariant
            from <= i <= v.len(),
            digits_end(v@, from as int) == digits_end(v@, i as int),
        decreases v.len() - i,
    {
        i += 1;
    }
    i
}

fn word_at(v: &Vec<char>, from: usize, word: &str) -> (r: bool)
    requires
        from <= v.len(),
    ensures
        r == is_word(v@.skip(from as int), word@),
{
    let w = chars_of(word);
    if v.len() - from != w.len() {
        return false;
    }
    let ghost text = v@.skip(from as int);
    let mut i: usize = 0;
    while i < w.len()
        invariant
            i <= w.len(),
            w@ == word@,
            text == v@.skip(from as int),
            from + w.len() == v.len(),
            forall|j: int| 0 <= j < i ==> lower(#[trigger] text[j]) == w@[j] as u32,
        decreases w.len() - i,
    {
        let c: u32 = v[from + i] as u32;
        let low: u32 = if 0x41 <= c && c <= 0x5A {
            c + 0x20
        } else {
            c
        };
        assert(text[i as int] == v@[from + i]);
        if low != w[i] as u32 {
            return false;
        }
        i += 1;
    }
    true
}

/// Whether `text` denotes a floating-point number.
pub fn float_literal(text: &str) -> (r: bool)
    ensures
        r == is_float_literal(text@),
{
    let v = chars_of(text);
    let n = v.len();
    let a: usize = if n > 0 && (v[0] == '+' || v[0] == '-') {
        1
    } else {
        0
    };
    if word_at(&v, a, "inf") || word_at(&v, a, "infinity") || word_at(&v, a, "nan") {
        return true;
    }
    let b = scan_digits(&v, a);
    let pointed = b < n && v[b] == '.';
    let c = if pointed {
        scan_digits(&v, b + 1)
    } else {
        b
    };
    let digits = if pointed {
        c - a - 1
    } else {
        c - a
    };
    if digits < 1 {
        return false;
    }
    if c == n {
        return true;
    }
    if !(v[c] == 'e' || v[c] == 'E') {
        return false;
    }
    let d = if c + 1 < n && (v[c + 1] == '+' || v[c + 1] == '-') {
        c + 2
    } else {
        c + 1
    };
    d < n && scan_digits(&v, d) == n
}

} // verus!
