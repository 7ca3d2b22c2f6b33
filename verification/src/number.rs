//! Decimal numbers in settings and labels.
//!
//! Settings arrive as text. A number is an optional `+` followed by one or
//! more ASCII digits and nothing else: no spaces, no underscores, no `-`.
//! Labels go the other way: a number is written as its digits, without
//! sign or leading zeros, and what is written reads back as the same number.

use vstd::prelude::*;

verus! {

/// Why a piece of text was not accepted as a number.
#[derive(Clone, Copy, Debug, PartialEq, Eq, Structural)]
pub enum NumberError {
    /// The text is empty.
    Empty,
    /// The text is not an optional `+` followed by at least one digit.
    InvalidDigit,
    /// The digits are fine but the value exceeds the allowed maximum.
    TooLarge,
    /// The value is zero where a positive number is required.
    Zero,
}

/// `c` is one of `0` to `9`.
pub open spec fn is_digit(c: char) -> bool {
    '0' <= c && c <= '9'
}

/// The value of the digit `c`.
pub open spec fn digit_value(c: char) -> nat
    recommends
        is_digit(c),
{
    (c as nat - '0' as nat) as nat
}

/// Every character of `s` is a digit.
pub open spec fn all_digits(s: Seq<char>) -> bool {
    forall|i: int| 0 <= i < s.len() ==> is_digit(#[trigger] s[i])
}

/// The number that the digits `s` write in base ten; the empty sequence is 0.
pub open spec fn digits_value(s: Seq<char>) -> nat
    decreases s.len(),
{
    if s.len() == 0 {
        0
    } else {
        digits_value(s.drop_last()) * 10 + digit_value(s.last())
    }
}

/// `s` without its leading `+`, if it has one.
pub open spec fn unsigned_digits(s: Seq<char>) -> Seq<char> {
    if s.len() > 0 && s[0] == '+' {
        s.subrange(1, s.len() as int)
    } else {
        s
    }
}

/// `s` is an optional `+` followed by one or more digits.
pub open spec fn is_decimal(s: Seq<char>) -> bool {
    unsigned_digits(s).len() > 0 && all_digits(unsigned_digits(s))
}

/// The value of a well-formed decimal text.
pub open spec fn decimal_value(s: Seq<char>) -> nat
    recommends
        is_decimal(s),
{
    digits_value(unsigned_digits(s))
}

/// What reading `s` as a number no larger than `max` gives.
pub open spec fn parse_bounded(s: Seq<char>, max: nat) -> Result<nat, NumberError> {
    if s.len() == 0 {
        Err(NumberError::Empty)
    } else if !is_decimal(s) {
        Err(NumberError::InvalidDigit)
    } else if decimal_value(s) > max {
        Err(NumberError::TooLarge)
    } else {
        Ok(decimal_value(s))
    }
}

/// The character that writes the digit `d`.
pub open spec fn digit_char(d: nat) -> char
    recommends
        d < 10,
{
    (d + '0' as nat) as char
}

/// `n` written in base ten, without leading zeros.
pub open spec fn decimal_text(n: nat) -> Seq<char>
    decreases n,
{
    if n < 10 {
        seq![digit_char(n)]
    } else {
        decimal_text(n / 10).push(digit_char(n % 10))
    }
}

/// Appending a digit multiplies by ten and adds the digit.
pub proof fn lemma_digits_value_push(s: Seq<char>, c: char)
    ensures
        digits_value(s.push(c)) == digits_value(s) * 10 + digit_value(c),
{
    assert(s.push(c).drop_last() =~= s);
}

/// What is written in base ten is digits only, at least one, and worth the
/// number written.
pub proof fn lemma_decimal_text(n: nat)
    ensures
        decimal_text(n).len() > 0,
        all_digits(decimal_text(n)),
        digits_value(decimal_text(n)) == n,
    decreases n,
{
    if n < 10 {
        let c = digit_char(n);
        assert(is_digit(c) && digit_value(c) == n);
        lemma_digits_value_push(Seq::<char>::empty(), c);
        assert(Seq::<char>::empty().push(c) =~= seq![c]);
    } else {
        let front = decimal_text(n / 10);
        let c = digit_char(n % 10);
        lemma_decimal_text(n / 10);
        assert(is_digit(c) && digit_value(c) == n % 10);
        lemma_digits_value_push(front, c);
    }
}

/// A number written in base ten reads back as itself, wherever it is
/// within the bound.
pub proof fn lemma_written_reads_back(n: nat, max: nat)
    requires
        n <= max,
    ensures
        parse_bounded(decimal_text(n), max) == Ok::<nat, NumberError>(n),
{
    lemma_decimal_text(n);
    let text = decimal_text(n);
    assert(is_digit(text[0]));
    assert(unsigned_digits(text) == text);
}

/// Reads `text` as a decimal number that must not exceed `max`.
pub fn parse_decimal(text: &str, max: u64) -> (result: Result<u64, NumberError>)
    ensures
        match result {
            Ok(n) => parse_bounded(text@, max as nat) == Ok::<nat, NumberError>(n as nat),
            Err(e) => parse_bounded(text@, max as nat) == Err::<nat, NumberError>(e),
        },
{
    let len: usize = text.unicode_len();
    if len == 0 {
        return Err(NumberError::Empty);
    }
    let start: usize = if text.get_char(0) == '+' { 1 } else { 0 };
    let ghost body = unsigned_digits(text@);
    assert(body =~= text@.subrange(start as int, len as int));
    if start == len {
        return Err(NumberError::InvalidDigit);
    }
    let mut value: u64 = 0;
    let mut overflow: bool = false;
    let mut i: usize = start;
    while i < len
        invariant
            start <= i <= len,
            len == text@.len(),
            body == unsigned_digits(text@),
            body == text@.subrange(start as int, len as int),
            all_digits(body.take(i - start)),
            !overflow ==> value as nat == digits_value(body.take(i - start)) && value <= max,
            overflow ==> digits_value(body.take(i - start)) > max,
        decreases len - i,
    {
        let c: char = text.get_char(i);
        if !(c >= '0' && c <= '9') {
            assert(!is_digit(body[i - start]));
            return Err(NumberError::InvalidDigit);
        }
        let d: u64 = (c as u32 - '0' as u32) as u64;
        proof {
            let prefix = body.take(i - start);
            assert(body.take(i + 1 - start) =~= prefix.push(c));
            lemma_digits_value_push(prefix, c);
            assert(d as nat == digit_value(c));
        }
        if !overflow {
            if value > max / 10 || (value == max / 10 && d > max % 10) {
                overflow = true;
            } else {
                value = value * 10 + d;
            }
        }
        i = i + 1;
    }
    assert(body.take(len - start) =~= body);
    if overflow {
        Err(NumberError::TooLarge)
    } else {
        Ok(value)
    }
}

/// The text of one digit.
fn digit_text(d: u64) -> (text: &'static str)
    requires
        d < 10,
    ensures
        text@ == seq![digit_char(d as nat)],
{
    proof {
        reveal_strlit("0");
        reveal_strlit("1");
        reveal_strlit("2");
        reveal_strlit("3");
        reveal_strlit("4");
        reveal_strlit("5");
        reveal_strlit("6");
        reveal_strlit("7");
        reveal_strlit("8");
        reveal_strlit("9");
    }
    let text: &'static str = if d == 0 {
        "0"
    } else if d == 1 {
        "1"
    } else if d == 2 {
        "2"
    } else if d == 3 {
        "3"
    } else if d == 4 {
        "4"
    } else if d == 5 {
        "5"
    } else if d == 6 {
        "6"
    } else if d == 7 {
        "7"
    } else if d == 8 {
        "8"
    } else {
        "9"
    };
    assert(text@ =~= seq![digit_char(d as nat)]);
    text
}

/// Writes `n` in base ten.
pub fn decimal_string(n: u64) -> (text: String)
    ensures
        text@ == decimal_text(n as nat),
    decreases n,
{
    if n < 10 {
        digit_text(n).to_owned()
    } else {
        let mut text: String = decimal_string(n / 10);
        text.append(digit_text(n % 10));
        assert(text@ =~= decimal_text((n / 10) as nat).push(digit_char((n % 10) as nat)));
        text
    }
}

} // verus!
