//! Reading and writing unsigned integers in a given radix.
//!
//! A numeral is an optional `+` followed by at least one digit; digits are
//! `0-9`, `a-z` and `A-Z`, each of which must be below the radix, so that a
//! radix above 36 has no more digits than 36 has. Writing uses upper-case
//! letters for digits above nine.

use vstd::prelude::*;
use vstd::string::*;
use crate::text::chars_of;

verus! {

/// The value of a digit character, or 36 for a character that is no digit.
pub open spec fn digit_value(c: char) -> int {
    if '0' <= c <= '9' {
        c as int - '0' as int
    } else if 'a' <= c <= 'z' {
        c as int - 'a' as int + 10
    } else if 'A' <= c <= 'Z' {
        c as int - 'A' as int + 10
    } else {
        36
    }
}

/// `c` is a digit below `radix`.
pub open spec fn is_digit(c: char, radix: int) -> bool {
    digit_value(c) < radix && digit_value(c) < 36
}

/// Every character of `s` is a digit below `radix`.
pub open spec fn all_digits(s: Seq<char>, radix: int) -> bool {
    forall|i: int| 0 <= i < s.len() ==> is_digit(#[trigger] s[i], radix)
}

/// The number that the digits of `s` denote, most significant digit first.
pub open spec fn digits_value(s: Seq<char>, radix: int) -> int
    decreases s.len(),
{
    if s.len() == 0 {
        0
    } else {
        digits_value(s.drop_last(), radix) * radix + digit_value(s.last())
    }
}

/// The digits of a numeral: what follows its optional `+`.
pub open spec fn numeral_digits(s: Seq<char>) -> Seq<char> {
    if s.len() > 0 && s[0] == '+' {
        s.skip(1)
    } else {
        s
    }
}

/// The `u64` that `s` denotes in `radix`, if `s` is a numeral whose value
/// fits.
pub open spec fn parsed_u64(s: Seq<char>, radix: int) -> Option<u64> {
    let digits = numeral_digits(s);
    if digits.len() > 0 && all_digits(digits, radix) && digits_value(digits, radix) <= u64::MAX {
        Some(digits_value(digits, radix) as u64)
    } else {
        None
    }
}

/// The character that writes a digit below sixteen.
pub open spec fn digit_char(d: int) -> char {
    if d == 0 {
        '0'
    } else if d == 1 {
        '1'
    } else if d == 2 {
        '2'
    } else if d == 3 {
        '3'
    } else if d == 4 {
        '4'
    } else if d == 5 {
        '5'
    } else if d == 6 {
        '6'
    } else if d == 7 {
        '7'
    } else if d == 8 {
        '8'
    } else if d == 9 {
        '9'
    } else if d == 10 {
        'A'
    } else if d == 11 {
        'B'
    } else if d == 12 {
        'C'
    } else if d == 13 {
        'D'
    } else if d == 14 {
        'E'
    } else {
        'F'
    }
}

/// The numeral of `n` in `radix`, without sign or leading zeros.
pub open spec fn numeral(n: nat, radix: nat) -> Seq<char>
    recommends
        2 <= radix <= 16,
    decreases n,
    via numeral_decreases
{
    if n < radix || radix < 2 {
        seq![digit_char(n as int)]
    } else {
        numeral(n / radix, radix).push(digit_char((n % radix) as int))
    }
}

#[via_fn]
proof fn numeral_decreases(n: nat, radix: nat) {
    if !(n < radix || radix < 2) {
        assert(n / radix < n) by (nonlinear_arith)
            requires
                radix >= 2,
                n >= radix,
        ;
    }
}

/// A prefix of a digit string never denotes more than the whole string.
pub proof fn lemma_digits_value_prefix(s: Seq<char>, k: int, radix: int)
    requires
        0 <= k <= s.len(),
        radix >= 1,
    ensures
        0 <= digits_value(s.take(k), radix) <= digits_value(s, radix),
    decreases s.len(),
{
    if s.len() == 0 {
        assert(s.take(k) =~= s);
    } else if k == s.len() {
        assert(s.take(k) =~= s);
        lemma_digits_value_prefix(s.drop_last(), k - 1, radix);
        assert(s.drop_last().take(k - 1) =~= s.drop_last());
        assert(digits_value(s.drop_last(), radix) * radix >= digits_value(s.drop_last(), radix))
            by (nonlinear_arith)
            requires
                digits_value(s.drop_last(), radix) >= 0,
                radix >= 1,
        ;
    } else {
        lemma_digits_value_prefix(s.drop_last(), k, radix);
        assert(s.drop_last().take(k) =~= s.take(k));
        lemma_digits_value_prefix(s.drop_last(), s.len() - 1, radix);
        assert(s.drop_last().take(s.len() - 1) =~= s.drop_last());
        assert(digits_value(s.drop_last(), radix) * radix >= digits_value(s.drop_last(), radix))
            by (nonlinear_arith)
            requires
                digits_value(s.drop_last(), radix) >= 0,
                radix >= 1,
        ;
    }
}

/// The character of a digit below sixteen has that digit as its value.
pub proof fn lemma_digit_char_value(d: int)
    requires
        0 <= d < 16,
    ensures
        digit_value(digit_char(d)) == d,
{
}

/// A numeral is made of digits of its radix and denotes the number it was
/// written for.
pub proof fn lemma_numeral_value(n: nat, radix: nat)
    requires
        2 <= radix <= 16,
    ensures
        numeral(n, radix).len() > 0,
        all_digits(numeral(n, radix), radix as int),
        digits_value(numeral(n, radix), radix as int) == n,
    decreases n,
{
    let text = numeral(n, radix);
    if n < radix {
        lemma_digit_char_value(n as int);
        assert(text.drop_last() =~= Seq::<char>::empty());
        assert(digits_value(text.drop_last(), radix as int) == 0);
    } else {
        let head = numeral(n / radix, radix);
        assert(n / radix < n && n == (n / radix) * radix + n % radix && n % radix < radix)
            by (nonlinear_arith)
            requires
                radix >= 2,
                n >= radix,
        ;
        lemma_numeral_value(n / radix, radix);
        lemma_digit_char_value((n % radix) as int);
        assert(text.drop_last() =~= head);
        assert forall|i: int| 0 <= i < text.len() implies is_digit(
            #[trigger] text[i],
            radix as int,
        ) by {
            if i < head.len() {
                assert(text[i] == head[i]);
            }
        }
    }
}

/// Reading undoes writing: the numeral of a number that fits in 64 bits is
/// read back as that number.
pub proof fn lemma_numeral_is_read_back(n: nat, radix: nat)
    requires
        2 <= radix <= 16,
        n <= u64::MAX,
    ensures
        parsed_u64(numeral(n, radix), radix as int) == Some(n as u64),
{
    lemma_numeral_value(n, radix);
    let text = numeral(n, radix);
    assert(is_digit(text[0], radix as int));
    assert(numeral_digits(text) == text);
}

/// The value of a digit character, or 36 for a character that is no digit.
pub fn digit_of(c: char) -> (d: u64)
    ensures
        d == digit_value(c),
        d <= 36,
{
    if '0' <= c && c <= '9' {
        (c as u64) - ('0' as u64)
    } else if 'a' <= c && c <= 'z' {
        (c as u64) - ('a' as u64) + 10
    } else if 'A' <= c && c <= 'Z' {
        (c as u64) - ('A' as u64) + 10
    } else {
        36
    }
}

/// Reads `s` as an unsigned numeral in `radix`. `None` is returned for the
/// empty string, a lone `+`, a character that is no digit of the radix, and
/// a value above `u64::MAX`.
pub fn parse_u64(s: &str, radix: u64) -> (r: Option<u64>)
    ensures
        r == parsed_u64(s@, radix as int),
{
    let chars = chars_of(s);
    let start: usize = if chars.len() > 0 && chars[0] == '+' {
        1
    } else {
        0
    };
    if start >= chars.len() {
        return None;
    }
    let ghost digits = numeral_digits(s@);
    assert(digits =~= chars@.skip(start as int));
    let mut value: u64 = 0;
    let mut i: usize = start;
    while i < chars.len()
        invariant
            start <= i <= chars.len(),
            digits == chars@.skip(start as int),
            digits == numeral_digits(s@),
            digits.len() > 0,
            all_digits(digits.take(i - start), radix as int),
            value == digits_value(digits.take(i - start), radix as int),
        decreases chars.len() - i,
    {
        let d = digit_of(chars[i]);
        let ghost before = digits.take(i - start);
        let ghost after = digits.take(i - start + 1);
        assert(after.drop_last() =~= before);
        assert(after.last() == chars@[i as int]);
        if d >= radix || d >= 36 {
            assert(!all_digits(digits, radix as int)) by {
                assert(digits[i - start] == chars@[i as int]);
            }
            return None;
        }
        let next = match value.checked_mul(radix) {
            Some(scaled) => scaled.checked_add(d),
            None => None,
        };
        match next {
            Some(n) => {
                value = n;
            },
            None => {
                assert(digits_value(after, radix as int) > u64::MAX);
                proof {
                    lemma_digits_value_prefix(digits, i - start + 1, radix as int);
                }
                return None;
            },
        }
        assert forall|j: int| 0 <= j < after.len() implies is_digit(
            #[trigger] after[j],
            radix as int,
        ) by {
            if j < before.len() {
                assert(after[j] == before[j]);
            }
        }
        i += 1;
    }
    assert(digits.take(i - start) =~= digits);
    Some(value)
}

/// The character that writes a digit below sixteen.
fn digit_to_char(d: u64) -> (c: char)
    requires
        d < 16,
    ensures
        c == digit_char(d as int),
{
    if d == 0 {
        '0'
    } else if d == 1 {
        '1'
    } else if d == 2 {
        '2'
    } else if d == 3 {
        '3'
    } else if d == 4 {
        '4'
    } else if d == 5 {
        '5'
    } else if d == 6 {
        '6'
    } else if d == 7 {
        '7'
    } else if d == 8 {
        '8'
    } else if d == 9 {
        '9'
    } else if d == 10 {
        'A'
    } else if d == 11 {
        'B'
    } else if d == 12 {
        'C'
    } else if d == 13 {
        'D'
    } else if d == 14 {
        'E'
    } else {
        'F'
    }
}

/// Appends the numeral of `n` in `radix` to `out`.
fn push_numeral(out: &mut String, n: u64, radix: u64)
    requires
        2 <= radix <= 16,
    ensures
        final(out)@ == old(out)@ + numeral(n as nat, radix as nat),
    decreases n,
{
    if n < radix {
        out.push(digit_to_char(n));
        assert(old(out)@.push(digit_char(n as int)) =~= old(out)@ + numeral(
            n as nat,
            radix as nat,
        ));
    } else {
        assert(n / radix < n) by (nonlinear_arith)
            requires
                radix >= 2,
                n >= radix,
        ;
        push_numeral(out, n / radix, radix);
        out.push(digit_to_char(n % radix));
        assert((old(out)@ + numeral((n / radix) as nat, radix as nat)).push(
            digit_char((n % radix) as int),
        ) =~= old(out)@ + numeral(n as nat, radix as nat));
    }
}

/// The decimal numeral of `n`.
pub fn decimal_text(n: u64) -> (r: String)
    ensures
        r@ == numeral(n as nat, 10),
{
    let mut out = String::new();
    push_numeral(&mut out, n, 10);
    assert(Seq::<char>::empty() + numeral(n as nat, 10) =~= numeral(n as nat, 10));
    out
}

/// The hexadecimal numeral of `n`, in upper case.
pub fn upper_hex_text(n: u64) -> (r: String)
    ensures
        r@ == numeral(n as nat, 16),
{
    let mut out = String::new();
    push_numeral(&mut out, n, 16);
    assert(Seq::<char>::empty() + numeral(n as nat, 16) =~= numeral(n as nat, 16));
    out
}

} // verus!
