//! Decimal digit strings and the numbers they denote.
//!
//! An account identifier travels through the page as text. This module says
//! which texts denote an identifier, reads the identifier out of such a text
//! and writes a number back as digits.

use vstd::prelude::*;
use vstd::string::*;

verus! {

/// Whether `c` is one of the ASCII digits `0` to `9`.
pub open spec fn is_digit(c: char) -> bool {
    '0' <= c && c <= '9'
}

/// The number that the digit `c` stands for.
pub open spec fn digit_value(c: char) -> nat
    recommends
        is_digit(c),
{
    (c as int - '0' as int) as nat
}

/// The digit that stands for `d`.
pub open spec fn digit_char(d: nat) -> char
    recommends
        d <= 9,
{
    if d == 0 {
        '0'
    } else if d == 1 {
        '1'
    } else if d == 2 {
        '2'
    } else if d == 3 {
        '3'
    } else if d == 4 {
        '4'
    } else if d == 5 {
        '5'
    } else if d == 6 {
        '6'
    } else if d == 7 {
        '7'
    } else if d == 8 {
        '8'
    } else {
        '9'
    }
}

/// Whether every character of `s` is an ASCII digit.
pub open spec fn all_digits(s: Seq<char>) -> bool {
    forall|i: int| 0 <= i < s.len() ==> is_digit(#[trigger] s[i])
}

/// The number that `s` denotes when read in base ten, most significant digit
/// first. The empty text denotes zero.
pub open spec fn decimal_value(s: Seq<char>) -> nat
    decreases s.len(),
{
    if s.len() == 0 {
        0
    } else {
        decimal_value(s.drop_last()) * 10 + digit_value(s.last())
    }
}

/// Whether `s` is the text of an account identifier: one or more ASCII
/// digits, with no sign and no separator, whose value fits in 64 bits.
pub open spec fn is_account_id_text(s: Seq<char>) -> bool {
    &&& s.len() > 0
    &&& all_digits(s)
    &&& decimal_value(s) <= u64::MAX
}

/// The digits of `n` in base ten, most significant digit first. Zero is
/// written as one digit, and no other number starts with a zero.
pub open spec fn decimal_text(n: nat) -> Seq<char>
    decreases n,
{
    if n < 10 {
        seq![digit_char(n)]
    } else {
        decimal_text(n / 10).push(digit_char(n % 10))
    }
}

/// A text denotes at least as much as each of its prefixes.
pub proof fn lemma_prefix_value_is_smaller(s: Seq<char>, k: int)
    requires
        0 <= k <= s.len(),
    ensures
        decimal_value(s.take(k)) <= decimal_value(s),
    decreases s.len() - k,
{
    if k == s.len() {
        assert(s.take(k) =~= s);
    } else {
        lemma_prefix_value_is_smaller(s.drop_last(), k);
        assert(s.drop_last().take(k) =~= s.take(k));
    }
}

/// Reading one more digit multiplies what was read so far by ten and adds the
/// digit.
pub proof fn lemma_value_of_next_prefix(s: Seq<char>, k: int)
    requires
        0 <= k < s.len(),
    ensures
        decimal_value(s.take(k + 1)) == decimal_value(s.take(k)) * 10 + digit_value(s[k]),
{
    assert(s.take(k + 1).drop_last() =~= s.take(k));
}

/// Digits are ASCII characters.
pub proof fn lemma_digits_are_ascii(s: Seq<char>)
    requires
        all_digits(s),
    ensures
        vstd::utf8::is_ascii_chars(s),
{
    assert forall|i: int| 0 <= i < s.len() implies '\0' <= #[trigger] s[i] <= '\u{7f}' by {
        assert(is_digit(s[i]));
    }
}

/// Writing a number and reading it back gives the number: the text written
/// for `n` is made of digits, is not empty and denotes `n`.
pub proof fn lemma_decimal_text_denotes(n: nat)
    ensures
        decimal_text(n).len() > 0,
        all_digits(decimal_text(n)),
        decimal_value(decimal_text(n)) == n,
    decreases n,
{
    if n < 10 {
        assert(decimal_value(decimal_text(n).drop_last()) == 0);
    } else {
        lemma_decimal_text_denotes(n / 10);
        assert(decimal_text(n).drop_last() =~= decimal_text(n / 10));
    }
}

/// The text written for a number starts with a zero only where the number is
/// zero, and is then that one digit.
pub proof fn lemma_decimal_text_has_no_leading_zero(n: nat)
    ensures
        n == 0 ==> decimal_text(n) == seq!['0'],
        n > 0 ==> decimal_text(n)[0] != '0',
    decreases n,
{
    if n >= 10 {
        lemma_decimal_text_has_no_leading_zero(n / 10);
        lemma_decimal_text_denotes(n / 10);
    }
}

/// The text written for an identifier is the text of an identifier.
pub proof fn lemma_decimal_text_is_account_id_text(n: u64)
    ensures
        is_account_id_text(decimal_text(n as nat)),
        decimal_value(decimal_text(n as nat)) == n,
{
    lemma_decimal_text_denotes(n as nat);
}

/// Reads an account identifier from `text`.
///
/// The text is accepted when it is made of one or more ASCII digits and its
/// value fits in 64 bits; a sign, a blank or any other character rejects it,
/// and so does the empty text.
pub fn parse_account_id(text: &str) -> (id: Option<u64>)
    ensures
        id is Some <==> is_account_id_text(text@),
        id matches Some(n) ==> n == decimal_value(text@),
{
    if text.is_empty() {
        return None;
    }
    if !text.is_ascii() {
        proof {
            if all_digits(text@) {
                lemma_digits_are_ascii(text@);
            }
        }
        return None;
    }
    let bytes = text.as_bytes();
    proof {
        is_ascii_spec_bytes(text);
    }
    let n = bytes.len();
    let mut value: u64 = 0;
    let mut i: usize = 0;
    while i < n
        invariant
            i <= n,
            n == text@.len(),
            bytes@.len() == n,
            vstd::utf8::is_ascii_chars(text@),
            forall|k: int| 0 <= k < n ==> bytes@[k] == #[trigger] text@[k] as u8,
            all_digits(text@.take(i as int)),
            value == decimal_value(text@.take(i as int)),
        decreases n - i,
    {
        let b = bytes[i];
        assert(b == text@[i as int] as u8);
        if b < 48 || b > 57 {
            assert(!is_digit(text@[i as int]));
            return None;
        }
        let digit: u64 = (b - 48) as u64;
        proof {
            assert(digit == digit_value(text@[i as int]));
            lemma_value_of_next_prefix(text@, i as int);
            lemma_prefix_value_is_smaller(text@, i as int + 1);
        }
        let scaled = match value.checked_mul(10) {
            Some(scaled) => scaled,
            None => {
                return None;
            },
        };
        value = match scaled.checked_add(digit) {
            Some(sum) => sum,
            None => {
                return None;
            },
        };
        assert(all_digits(text@.take(i + 1))) by {
            assert forall|k: int| 0 <= k < i + 1 implies is_digit(
                #[trigger] text@.take(i + 1)[k],
            ) by {
                if k < i {
                    assert(is_digit(text@.take(i as int)[k]));
                }
            }
        }
        i = i + 1;
    }
    assert(text@.take(n as int) =~= text@);
    Some(value)
}

/// The one-character text of the digit `d`.
fn digit_str(d: u8) -> (s: &'static str)
    requires
        d <= 9,
    ensures
        s@ == seq![digit_char(d as nat)],
{
    proof {
        reveal_strlit("0");
        reveal_strlit("1");
        reveal_strlit("2");
        reveal_strlit("3");
        reveal_strlit("4");
        reveal_strlit("5");
        reveal_strlit("6");
        reveal_strlit("7");
        reveal_strlit("8");
        reveal_strlit("9");
    }
    if d == 0 {
        "0"
    } else if d == 1 {
        "1"
    } else if d == 2 {
        "2"
    } else if d == 3 {
        "3"
    } else if d == 4 {
        "4"
    } else if d == 5 {
        "5"
    } else if d == 6 {
        "6"
    } else if d == 7 {
        "7"
    } else if d == 8 {
        "8"
    } else {
        "9"
    }
}

/// Writes `n` in base ten, without sign, separator or leading zero.
pub fn decimal_string(n: u64) -> (s: String)
    ensures
        s@ == decimal_text(n as nat),
    decreases n,
{
    if n < 10 {
        String::from_str(digit_str(n as u8))
    } else {
        let mut s = decimal_string(n / 10);
        s.append(digit_str((n % 10) as u8));
        s
    }
}

} // verus!
