//! Unsigned integers in decimal notation.
//!
//! The numeric types of the library are written and read as plain decimal
//! numbers: an optional `+`, then one or more of the digits `0` to `9`, with
//! nothing before, between or after. A number is read from left to right,
//! and the first thing that goes wrong decides the error.

use vstd::prelude::*;
use vstd::string::{StrSliceExecFns, StringExecFns};

verus! {

/// Why a text is not a number of the expected type.
#[derive(Copy, Clone, Debug, Hash, PartialEq, Eq, Structural)]
pub enum ParseNumError {
    /// The text is empty.
    Empty,
    /// The text holds something else than digits after the optional sign, or
    /// no digit at all.
    InvalidDigit,
    /// The digits spell a number above the largest value of the type.
    PosOverflow,
}

/// Whether `c` is one of the ten decimal digits.
pub open spec fn is_digit(c: char) -> bool {
    '0' <= c <= '9'
}

/// The number that the digit `c` stands for.
pub open spec fn digit_value(c: char) -> nat {
    (c as u32 - '0' as u32) as nat
}

/// The character for the digit `d`, which is below ten.
pub open spec fn digit_char(d: nat) -> char {
    if d == 0 {
        '0'
    } else if d == 1 {
        '1'
    } else if d == 2 {
        '2'
    } else if d == 3 {
        '3'
    } else if d == 4 {
        '4'
    } else if d == 5 {
        '5'
    } else if d == 6 {
        '6'
    } else if d == 7 {
        '7'
    } else if d == 8 {
        '8'
    } else {
        '9'
    }
}

/// The number that a run of digits spells, most significant digit first.
pub open spec fn digits_value(digits: Seq<char>) -> nat
    decreases digits.len(),
{
    if digits.len() == 0 {
        0
    } else {
        digits_value(digits.drop_last()) * 10 + digit_value(digits.last())
    }
}

/// Length of the longest run of digits that `text` starts with.
pub open spec fn digit_prefix_len(text: Seq<char>) -> nat
    decreases text.len(),
{
    if text.len() > 0 && is_digit(text[0]) {
        1 + digit_prefix_len(text.drop_first())
    } else {
        0
    }
}

/// `text` without its leading `+`, if it has one.
pub open spec fn unsigned_body(text: Seq<char>) -> Seq<char> {
    if text.len() > 0 && text[0] == '+' {
        text.drop_first()
    } else {
        text
    }
}

/// What `text` reads as, for a type whose largest value is `max`.
///
/// The digits that the body starts with are taken first: where they already
/// spell more than `max`, the number overflows, whatever follows them. Where
/// something follows them, or there is none, that is an invalid digit.
pub open spec fn spec_parse_unsigned(text: Seq<char>, max: nat) -> Result<nat, ParseNumError> {
    let body = unsigned_body(text);
    let run = body.take(digit_prefix_len(body) as int);
    if text.len() == 0 {
        Err(ParseNumError::Empty)
    } else if body.len() == 0 {
        Err(ParseNumError::InvalidDigit)
    } else if digits_value(run) > max {
        Err(ParseNumError::PosOverflow)
    } else if run.len() < body.len() {
        Err(ParseNumError::InvalidDigit)
    } else {
        Ok(digits_value(body))
    }
}

/// Decimal notation of `n`: no sign, no leading zero but for zero itself.
pub open spec fn decimal_chars(n: nat) -> Seq<char>
    decreases n,
{
    if n < 10 {
        seq![digit_char(n)]
    } else {
        decimal_chars(n / 10).push(digit_char(n % 10))
    }
}

/// Reads a decimal number of at most `max` from `text`.
pub fn parse_unsigned(text: &str, max: u64) -> (r: Result<u64, ParseNumError>)
    ensures
        match r {
            Ok(v) => spec_parse_unsigned(text@, max as nat) == Ok::<nat, ParseNumError>(v as nat),
            Err(e) => spec_parse_unsigned(text@, max as nat) == Err::<nat, ParseNumError>(e),
        },
{
    let len = text.unicode_len();
    if len == 0 {
        return Err(ParseNumError::Empty);
    }
    let start: usize = if text.get_char(0) == '+' {
        1
    } else {
        0
    };
    if start == len {
        return Err(ParseNumError::InvalidDigit);
    }
    let ghost body = unsigned_body(text@);
    assert(body =~= text@.subrange(start as int, len as int));
    let mut acc: u64 = 0;
    let mut i: usize = start;
    while i < len
        invariant
            start <= i <= len,
            len == text@.len(),
            start < len,
            body == unsigned_body(text@),
            body == text@.subrange(start as int, len as int),
            forall|j: int| 0 <= j < i - start ==> is_digit(#[trigger] body[j]),
            acc == digits_value(body.take(i - start)),
            acc <= max,
        decreases len - i,
    {
        let c = text.get_char(i);
        let ghost seen = body.take(i - start);
        let ghost next = body.take(i - start + 1);
        proof {
            assert(body[i - start] == c);
            assert(next.drop_last() =~= seen);
            assert(next.last() == c);
        }
        if !(c >= '0' && c <= '9') {
            proof {
                lemma_digit_prefix_len(body, (i - start) as nat);
            }
            return Err(ParseNumError::InvalidDigit);
        }
        let d: u64 = (c as u32 - '0' as u32) as u64;
        let grown = match acc.checked_mul(10) {
            Some(tens) => tens.checked_add(d),
            None => None,
        };
        match grown {
            Some(v) if v <= max => {
                acc = v;
            },
            _ => {
                proof {
                    assert(digits_value(next) > max);
                    lemma_digit_prefix_at_least(body, (i - start + 1) as nat);
                    lemma_digits_value_monotonic(
                        body.take(digit_prefix_len(body) as int),
                        (i - start + 1) as nat,
                    );
                    assert(body.take(digit_prefix_len(body) as int).take(i - start + 1) =~= next);
                }
                return Err(ParseNumError::PosOverflow);
            },
        }
        i += 1;
    }
    proof {
        assert(body.take(len - start) =~= body);
        lemma_digit_prefix_len(body, (len - start) as nat);
    }
    Ok(acc)
}

/// The text of one decimal digit.
fn digit_str(d: u64) -> (r: &'static str)
    requires
        d < 10,
    ensures
        r@ == seq![digit_char(d as nat)],
{
    proof {
        reveal_strlit("0");
        reveal_strlit("1");
        reveal_strlit("2");
        reveal_strlit("3");
        reveal_strlit("4");
        reveal_strlit("5");
        reveal_strlit("6");
        reveal_strlit("7");
        reveal_strlit("8");
        reveal_strlit("9");
    }
    let r = if d == 0 {
        "0"
    } else if d == 1 {
        "1"
    } else if d == 2 {
        "2"
    } else if d == 3 {
        "3"
    } else if d == 4 {
        "4"
    } else if d == 5 {
        "5"
    } else if d == 6 {
        "6"
    } else if d == 7 {
        "7"
    } else if d == 8 {
        "8"
    } else {
        "9"
    };
    assert(r@ =~= seq![digit_char(d as nat)]);
    r
}

/// Appends the decimal notation of `n` to `out`.
pub fn write_unsigned(n: u64, out: &mut String)
    ensures
        final(out)@ == old(out)@ + decimal_chars(n as nat),
    decreases n,
{
    if n >= 10 {
        write_unsigned(n / 10, out);
    }
    out.append(digit_str(n % 10));
    assert(out@ =~= old(out)@ + decimal_chars(n as nat));
}

/// The decimal notation of `n`.
pub fn format_unsigned(n: u64) -> (r: String)
    ensures
        r@ == decimal_chars(n as nat),
{
    let mut out = String::new();
    write_unsigned(n, &mut out);
    assert(out@ =~= decimal_chars(n as nat));
    out
}

/// Writing a number and reading it back gives the number, for every type
/// that can hold it.
pub proof fn lemma_decimal_round_trip(n: nat, max: nat)
    requires
        n <= max,
    ensures
        spec_parse_unsigned(decimal_chars(n), max) == Ok::<nat, ParseNumError>(n),
{
    lemma_decimal_chars_are_digits(n);
    let text = decimal_chars(n);
    assert(unsigned_body(text) == text);
    lemma_digit_prefix_len(text, text.len());
    assert(text.take(text.len() as int) =~= text);
}

/// The notation of a number consists of digits that spell it.
pub proof fn lemma_decimal_chars_are_digits(n: nat)
    ensures
        decimal_chars(n).len() >= 1,
        forall|i: int| 0 <= i < decimal_chars(n).len() ==> is_digit(#[trigger] decimal_chars(n)[i]),
        digits_value(decimal_chars(n)) == n,
        n >= 10 ==> decimal_chars(n)[0] != '0',
    decreases n,
{
    if n < 10 {
        let text = decimal_chars(n);
        assert(text.drop_last() =~= Seq::<char>::empty());
        assert(digits_value(text.drop_last()) == 0);
    } else {
        lemma_decimal_chars_are_digits(n / 10);
        let head = decimal_chars(n / 10);
        let text = decimal_chars(n);
        assert(text.drop_last() =~= head);
        assert(text.last() == digit_char(n % 10));
        assert(text[0] == head[0]);
        if n / 10 < 10 {
            assert(head[0] == digit_char(n / 10));
        }
    }
}

/// Where the first `k` characters are digits and the next one, if any, is
/// not, the run of leading digits has length `k`.
proof fn lemma_digit_prefix_len(text: Seq<char>, k: nat)
    requires
        k <= text.len(),
        forall|j: int| 0 <= j < k ==> is_digit(#[trigger] text[j]),
        k < text.len() ==> !is_digit(text[k as int]),
    ensures
        digit_prefix_len(text) == k,
    decreases k,
{
    if k > 0 {
        let rest = text.drop_first();
        assert forall|j: int| 0 <= j < k - 1 implies is_digit(#[trigger] rest[j]) by {
            assert(rest[j] == text[j + 1]);
        }
        lemma_digit_prefix_len(rest, (k - 1) as nat);
    }
}

/// Where the first `k` characters are digits, the run of leading digits is
/// at least that long.
proof fn lemma_digit_prefix_at_least(text: Seq<char>, k: nat)
    requires
        k <= text.len(),
        forall|j: int| 0 <= j < k ==> is_digit(#[trigger] text[j]),
    ensures
        k <= digit_prefix_len(text) <= text.len(),
    decreases text.len(),
{
    if text.len() > 0 && is_digit(text[0]) {
        let rest = text.drop_first();
        if k > 0 {
            assert forall|j: int| 0 <= j < k - 1 implies is_digit(#[trigger] rest[j]) by {
                assert(rest[j] == text[j + 1]);
            }
            lemma_digit_prefix_at_least(rest, (k - 1) as nat);
        } else {
            lemma_digit_prefix_at_least(rest, 0);
        }
    }
}

/// Spelling more digits never gives a smaller number.
proof fn lemma_digits_value_monotonic(digits: Seq<char>, k: nat)
    requires
        k <= digits.len(),
    ensures
        digits_value(digits.take(k as int)) <= digits_value(digits),
    decreases digits.len(),
{
    if k < digits.len() {
        let shorter = digits.drop_last();
        assert(shorter.take(k as int) =~= digits.take(k as int));
        lemma_digits_value_monotonic(shorter, k);
    } else {
        assert(digits.take(k as int) =~= digits);
    }
}

} // verus!
