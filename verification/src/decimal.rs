//! The text of a brightness file: a decimal number from 0 to 255, which white
//! space may surround.

use crate::text::{blank, chars_of, lemma_trimmed_ignores_padding, trim, trimmed};
use vstd::prelude::*;

verus! {

/// Why a text is not a brightness level.
#[derive(Clone, Copy, Debug, PartialEq, Eq, Structural)]
pub enum ParseFailure {
    /// The text is not an unsigned decimal integer.
    NotAnInteger,
    /// The text is an integer above the highest level.
    OutOfRange,
}

impl ParseFailure {
    /// The failure in words.
    pub open spec fn described(self) -> Seq<char> {
        match self {
            ParseFailure::NotAnInteger => "not an unsigned integer"@,
            ParseFailure::OutOfRange => "above the highest level, 255"@,
        }
    }

    /// Says in words what the failure is.
    pub fn describe(&self) -> (text: &'static str)
        ensures
            text@ == self.described(),
    {
        match self {
            ParseFailure::NotAnInteger => "not an unsigned integer",
            ParseFailure::OutOfRange => "above the highest level, 255",
        }
    }
}

/// Whether `c` is one of the digits `0` to `9`.
pub open spec fn digit(c: char) -> bool {
    0x30 <= c as u32 <= 0x39
}

/// The number that the digit `c` stands for.
pub open spec fn digit_value(c: char) -> nat
    recommends
        digit(c),
{
    (c as u32 - 0x30) as nat
}

/// The digit that stands for `d`.
pub open spec fn digit_char(d: nat) -> char
    recommends
        d < 10,
{
    (d + 0x30) as char
}

/// Whether `s` is a decimal number: one digit or more, and nothing else.
pub open spec fn decimal(s: Seq<char>) -> bool {
    s.len() > 0 && forall|i: int| 0 <= i < s.len() ==> digit(#[trigger] s[i])
}

/// The number that the digits of `s` denote.
pub open spec fn decimal_value(s: Seq<char>) -> nat
    decreases s.len(),
{
    if s.len() == 0 {
        0
    } else {
        10 * decimal_value(s.drop_last()) + digit_value(s.last())
    }
}

/// The shortest decimal number that denotes `n`.
pub open spec fn decimal_text(n: nat) -> Seq<char>
    decreases n,
{
    if n < 10 {
        seq![digit_char(n)]
    } else {
        decimal_text(n / 10).push(digit_char(n % 10))
    }
}

/// `s` without the plus sign that it may start with.
pub open spec fn unsigned(s: Seq<char>) -> Seq<char> {
    if s.len() > 0 && s.first() == '+' {
        s.drop_first()
    } else {
        s
    }
}

/// The brightness level that the content of a brightness file denotes.
///
/// White space at either end is ignored. What is left must be a decimal
/// number, which a plus sign may precede, and must not exceed 255.
pub open spec fn parsed_level(content: Seq<char>) -> Result<u8, ParseFailure> {
    let digits = unsigned(trimmed(content));
    if !decimal(digits) {
        Err(ParseFailure::NotAnInteger)
    } else if decimal_value(digits) > 255 {
        Err(ParseFailure::OutOfRange)
    } else {
        Ok(decimal_value(digits) as u8)
    }
}

/// The number that `c` stands for, if `c` is a decimal digit.
pub fn to_digit(c: char) -> (value: Option<u8>)
    ensures
        match value {
            Some(d) => digit(c) && d == digit_value(c),
            None => !digit(c),
        },
{
    let n: u32 = c as u32;
    if 0x30 <= n && n <= 0x39 {
        Some((n - 0x30) as u8)
    } else {
        None
    }
}

/// Reads the brightness level from the content of a brightness file.
pub fn parse_brightness(content: &str) -> (result: Result<u8, ParseFailure>)
    ensures
        result == parsed_level(content@),
{
    let chars = chars_of(trim(content));
    let len = chars.len();
    let first: usize = if len > 0 && chars[0] == '+' {
        1
    } else {
        0
    };
    let ghost digits = unsigned(chars@);
    assert(digits == chars@.skip(first as int));
    if first == len {
        return Err(ParseFailure::NotAnInteger);
    }
    let mut value: u16 = 0;
    let mut too_large = false;
    let mut i: usize = first;
    assert(digits.take(0) == Seq::<char>::empty());
    while i < len
        invariant
            len == chars.len(),
            first <= i <= len,
            chars@ == trimmed(content@),
            digits == unsigned(chars@),
            digits == chars@.skip(first as int),
            forall|k: int| 0 <= k < i - first ==> digit(#[trigger] digits[k]),
            too_large ==> decimal_value(digits.take(i - first)) > 255,
            !too_large ==> value == decimal_value(digits.take(i - first)),
            value <= 255,
        decreases len - i,
    {
        let c = chars[i];
        assert(c == digits[i - first]);
        assert(digits.take(i - first + 1).drop_last() == digits.take(i - first));
        match to_digit(c) {
            None => {
                return Err(ParseFailure::NotAnInteger);
            },
            Some(d) => {
                if !too_large {
                    let next: u16 = 10 * value + d as u16;
                    if next > 255 {
                        too_large = true;
                    } else {
                        value = next;
                    }
                }
            },
        }
        i += 1;
    }
    assert(digits.take(len - first) == digits);
    if too_large {
        Err(ParseFailure::OutOfRange)
    } else {
        Ok(value as u8)
    }
}

/// The text of one digit.
fn digit_str(d: u8) -> (s: &'static str)
    requires
        d < 10,
    ensures
        s@ == seq![digit_char(d as nat)],
{
    proof {
        reveal_strlit("0");
        reveal_strlit("1");
        reveal_strlit("2");
        reveal_strlit("3");
        reveal_strlit("4");
        reveal_strlit("5");
        reveal_strlit("6");
        reveal_strlit("7");
        reveal_strlit("8");
        reveal_strlit("9");
    }
    let s = match d {
        0 => "0",
        1 => "1",
        2 => "2",
        3 => "3",
        4 => "4",
        5 => "5",
        6 => "6",
        7 => "7",
        8 => "8",
        _ => "9",
    };
    assert(s@ == seq![digit_char(d as nat)]);
    s
}

/// Writes `level` as the content of a brightness file: its decimal digits,
/// with no sign, leading zero or white space.
pub fn render_brightness(level: u8) -> (content: String)
    ensures
        content@ == decimal_text(level as nat),
{
    let mut content = String::new();
    if level >= 100 {
        content.append(digit_str(level / 100));
        content.append(digit_str(level / 10 % 10));
    } else if level >= 10 {
        content.append(digit_str(level / 10));
    }
    content.append(digit_str(level % 10));
    proof {
        reveal_with_fuel(decimal_text, 3);
        assert(content@ == decimal_text(level as nat));
    }
    content
}

/// The decimal text of a number consists of digits, and denotes that number.
pub proof fn lemma_decimal_text_denotes(n: nat)
    ensures
        decimal(decimal_text(n)),
        decimal_value(decimal_text(n)) == n,
    decreases n,
{
    if n < 10 {
        assert(decimal_value(decimal_text(n).drop_last()) == 0);
    } else {
        lemma_decimal_text_denotes(n / 10);
        assert(decimal_text(n).drop_last() == decimal_text(n / 10));
    }
}

/// A level that was written is the level that is read: the content that
/// [`render_brightness`] gives for `level` is parsed as `level`.
pub proof fn lemma_written_level_reads_back(level: u8)
    ensures
        parsed_level(decimal_text(level as nat)) == Ok::<u8, ParseFailure>(level),
{
    let text = decimal_text(level as nat);
    lemma_decimal_text_denotes(level as nat);
    assert(digit(text.first()) && digit(text.last()));
    assert(trimmed(text) == text);
}

/// White space before and after the content of a brightness file does not
/// change how it is read.
pub proof fn lemma_parse_ignores_padding(before: Seq<char>, content: Seq<char>, after: Seq<char>)
    requires
        blank(before),
        blank(after),
    ensures
        parsed_level(before + content + after) == parsed_level(content),
{
    lemma_trimmed_ignores_padding(before, content, after);
}

} // verus!
