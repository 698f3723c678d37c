//! Decoding the exit status that the pane-side shell reports.
//!
//! The shell writes one line of text to the status pipe. The driver reads the
//! pipe to its end, takes the bytes as UTF-8 text, drops trailing whitespace and
//! reads what is left as a signed decimal number that fits 32 bits.

use vstd::prelude::*;
use vstd::slice::slice_subrange;
use vstd::string::StringSliceAdditionalSpecFns;
use vstd::utf8::{decode_utf8, encode_utf8_decode_utf8, valid_utf8};
use crate::error::{DriverError, ErrorView};

verus! {

/// Whether `c` is white space: a character with the Unicode property `White_Space`.
pub open spec fn is_space(c: char) -> bool {
    ||| '\u{9}' <= c <= '\u{d}'
    ||| c == ' '
    ||| c == '\u{85}'
    ||| c == '\u{a0}'
    ||| c == '\u{1680}'
    ||| '\u{2000}' <= c <= '\u{200a}'
    ||| c == '\u{2028}'
    ||| c == '\u{2029}'
    ||| c == '\u{202f}'
    ||| c == '\u{205f}'
    ||| c == '\u{3000}'
}

/// `s` without its trailing white space.
pub open spec fn trimmed(s: Seq<char>) -> Seq<char>
    decreases s.len(),
{
    if s.len() > 0 && is_space(s.last()) {
        trimmed(s.drop_last())
    } else {
        s
    }
}

/// Whether `c` is one of the ten decimal digits.
pub open spec fn is_digit(c: char) -> bool {
    '0' <= c <= '9'
}

/// The number that the digit `c` stands for.
pub open spec fn digit_value(c: char) -> int {
    c as u32 as int - '0' as u32 as int
}

/// Whether `s` holds decimal digits only.
pub open spec fn all_digits(s: Seq<char>) -> bool {
    forall|i: int| 0 <= i < s.len() ==> is_digit(#[trigger] s[i])
}

/// The number that the digits `s` denote in base ten.
pub open spec fn decimal_value(s: Seq<char>) -> int
    decreases s.len(),
{
    if s.len() == 0 {
        0
    } else {
        decimal_value(s.drop_last()) * 10 + digit_value(s.last())
    }
}

/// The digits of `s`: what follows its sign, if it has one.
pub open spec fn digits_of(s: Seq<char>) -> Seq<char> {
    if s.len() > 0 && (s[0] == '-' || s[0] == '+') {
        s.skip(1)
    } else {
        s
    }
}

/// The number that `s` denotes: an optional sign, then one or more digits.
pub open spec fn signed_value(s: Seq<char>) -> int {
    if s.len() > 0 && s[0] == '-' {
        -decimal_value(digits_of(s))
    } else {
        decimal_value(digits_of(s))
    }
}

/// The 32-bit integer that the text `s` denotes, if it denotes one.
pub open spec fn parsed(s: Seq<char>) -> Option<int> {
    if digits_of(s).len() > 0 && all_digits(digits_of(s)) && i32::MIN <= signed_value(s)
        <= i32::MAX {
        Some(signed_value(s))
    } else {
        None
    }
}

/// What the content of the status pipe decodes to.
pub open spec fn exit_status(content: Seq<u8>) -> Result<int, ErrorView> {
    if !valid_utf8(content) {
        Err(ErrorView::InvalidExitEncoding)
    } else {
        match parsed(trimmed(decode_utf8(content))) {
            Some(code) => Ok(code),
            None => Err(ErrorView::InvalidExitValue),
        }
    }
}

/// The digits read so far never denote more than the whole.
pub proof fn lemma_decimal_value_monotone(s: Seq<char>, k: int)
    requires
        all_digits(s),
        0 <= k <= s.len(),
    ensures
        0 <= decimal_value(s.take(k)) <= decimal_value(s),
    decreases s.len() - k,
{
    if k == s.len() {
        assert(s.take(k) =~= s);
        lemma_decimal_value_nonnegative(s);
    } else {
        lemma_decimal_value_monotone(s, k + 1);
        assert(s.take(k + 1).drop_last() =~= s.take(k));
        assert(is_digit(s.take(k + 1).last()));
        lemma_decimal_value_nonnegative(s.take(k));
    }
}

/// Digits denote a number that is not negative.
pub proof fn lemma_decimal_value_nonnegative(s: Seq<char>)
    requires
        all_digits(s),
    ensures
        0 <= decimal_value(s),
    decreases s.len(),
{
    if s.len() > 0 {
        assert(is_digit(s.last()));
        lemma_decimal_value_nonnegative(s.drop_last());
    }
}

/// The text that `bytes` encode, if they encode any.
///
/// Trusted, not proved: the body hands `bytes` to `core::str::from_utf8` and
/// keeps the text, dropping the detail of a refusal. The contract takes from the
/// documentation of that function that it accepts exactly the well-formed UTF-8
/// sequences, and that the text it returns consists of the very bytes it was given.
#[verifier::external_body]
fn utf8_text(bytes: &[u8]) -> (text: Option<&str>)
    ensures
        text is Some <==> valid_utf8(bytes@),
        text matches Some(s) ==> s.spec_bytes() == bytes@,
{
    core::str::from_utf8(bytes).ok()
}

/// The characters of `text`, in order.
fn chars_of(text: &str) -> (chars: Vec<char>)
    ensures
        chars@ == text@,
{
    let mut chars: Vec<char> = Vec::new();
    for c in it: text.chars()
        invariant
            chars@ == it.seq().take(it.index() as int),
            it.seq() == text@,
    {
        chars.push(c);
    }
    chars
}

/// Whether `c` is white space.
pub fn is_whitespace(c: char) -> (space: bool)
    ensures
        space == is_space(c),
{
    ('\u{9}' <= c && c <= '\u{d}')
        || c == ' '
        || c == '\u{85}'
        || c == '\u{a0}'
        || c == '\u{1680}'
        || ('\u{2000}' <= c && c <= '\u{200a}')
        || c == '\u{2028}'
        || c == '\u{2029}'
        || c == '\u{202f}'
        || c == '\u{205f}'
        || c == '\u{3000}'
}

/// Length of `text` without its trailing white space.
pub fn trimmed_len(text: &[char]) -> (end: usize)
    ensures
        end <= text@.len(),
        text@.take(end as int) == trimmed(text@),
{
    let mut end: usize = text.len();
    assert(text@.take(end as int) =~= text@);
    while end > 0 && is_whitespace(text[end - 1])
        invariant
            end <= text@.len(),
            trimmed(text@.take(end as int)) == trimmed(text@),
        decreases end,
    {
        assert(text@.take(end as int).drop_last() =~= text@.take(end as int - 1));
        end -= 1;
    }
    end
}

/// Reads `text` as a signed decimal number: an optional `+` or `-`, then one or
/// more digits, with nothing before, between or after. `None` when `text` is not
/// of that form or the number does not fit 32 bits.
pub fn parse_decimal(text: &[char]) -> (value: Option<i32>)
    ensures
        match value {
            Some(v) => parsed(text@) == Some(v as int),
            None => parsed(text@) is None,
        },
{
    let n: usize = text.len();
    let negative: bool = n > 0 && text[0] == '-';
    let start: usize = if n > 0 && (text[0] == '-' || text[0] == '+') {
        1
    } else {
        0
    };
    let ghost digits = digits_of(text@);
    assert(digits =~= text@.skip(start as int));
    if start == n {
        return None;
    }
    let mut magnitude: i64 = 0;
    let mut i: usize = start;
    assert(digits.take(0) =~= Seq::<char>::empty());
    while i < n
        invariant
            start <= i <= n,
            n == text@.len(),
            digits == digits_of(text@),
            digits == text@.skip(start as int),
            all_digits(digits.take(i - start)),
            magnitude == decimal_value(digits.take(i - start)),
            0 <= magnitude <= 0x8000_0000,
        decreases n - i,
    {
        let c: char = text[i];
        assert(digits[i - start] == c);
        if !('0' <= c && c <= '9') {
            assert(!is_digit(digits[i - start]));
            return None;
        }
        let digit: i64 = (c as u32 - '0' as u32) as i64;
        assert(digits.take(i - start + 1).drop_last() =~= digits.take(i - start));
        magnitude = magnitude * 10 + digit;
        if magnitude > 0x8000_0000 {
            proof {
                if all_digits(digits) {
                    lemma_decimal_value_monotone(digits, i - start + 1);
                }
            }
            return None;
        }
        i += 1;
    }
    assert(digits.take(i - start) =~= digits);
    let value: i64 = if negative {
        -magnitude
    } else {
        magnitude
    };
    if value > 0x7fff_ffff {
        None
    } else {
        Some(value as i32)
    }
}

/// Decodes the content of the status pipe.
///
/// Content that is not UTF-8 is an encoding error. Text that, without its
/// trailing white space, is not a decimal number in the range of `i32` is a
/// value error. Everything else yields the number.
pub fn decode_exit_status(content: &[u8]) -> (status: Result<i32, DriverError>)
    ensures
        match status {
            Ok(code) => exit_status(content@) == Ok::<int, ErrorView>(code as int),
            Err(e) => exit_status(content@) == Err::<int, ErrorView>(e@),
        },
{
    match utf8_text(content) {
        None => Err(DriverError::InvalidExitEncoding),
        Some(text) => {
            proof {
                encode_utf8_decode_utf8(text@);
            }
            let chars = chars_of(text);
            let end = trimmed_len(chars.as_slice());
            let kept = slice_subrange(chars.as_slice(), 0, end);
            assert(kept@ =~= chars@.take(end as int));
            match parse_decimal(kept) {
                Some(code) => Ok(code),
                None => Err(DriverError::InvalidExitValue),
            }
        },
    }
}

} // verus!
