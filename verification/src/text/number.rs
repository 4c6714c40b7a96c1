//! Numbers in decimal digits.
use super::compose::{chars_of, concat3, pad_left};
use super::model;
use super::model::Text;
use vstd::prelude::*;

verus! {

/// A number in decimal digits.
pub fn number_text(n: u64) -> (r: String)
    ensures
        r@ == model::decimal(n as nat),
    decreases n,
{
    let digit: u8 = (n % 10) as u8;
    let c = (48 + digit) as char;
    if n < 10 {
        let mut text = String::new();
        text.push(c);
        assert(text@ == model::decimal(n as nat));
        text
    } else {
        let mut text = number_text(n / 10);
        text.push(c);
        text
    }
}

/// A signed number in decimal digits.
pub fn signed_text(n: i32) -> (r: String)
    ensures
        r@ == model::signed_decimal(n as int),
{
    if n < 0 {
        let magnitude: u64 = (-(n as i64)) as u64;
        let digits = number_text(magnitude);
        let mut text = String::new();
        text.push('-');
        text.append(digits.as_str());
        assert(text@ == seq!['-'] + digits@);
        text
    } else {
        number_text(n as u64)
    }
}

/// An exit code in a message.
pub fn exit_text(code: Option<i32>) -> (r: String)
    ensures
        r@ == model::exit_code(code),
{
    match code {
        Some(n) => concat3("Some(", signed_text(n).as_str(), ")"),
        None => "None".to_owned(),
    }
}

/// A signed machine word in decimal digits.
pub fn word_text(n: isize) -> (r: String)
    ensures
        r@ == model::signed_decimal(n as int),
{
    if n < 0 {
        let magnitude: u64 = (-((n + 1) as i64)) as u64 + 1;
        let digits = number_text(magnitude);
        let mut text = String::new();
        text.push('-');
        text.append(digits.as_str());
        assert(text@ == seq!['-'] + digits@);
        text
    } else {
        number_text(n as u64)
    }
}

fn hex_digits(n: u64) -> (r: String)
    ensures
        r@ == model::hexadecimal(n as nat),
    decreases n,
{
    let digit: u8 = (n % 16) as u8;
    let c = if digit < 10 {
        (48 + digit) as char
    } else {
        (87 + digit) as char
    };
    if n < 16 {
        let mut text = String::new();
        text.push(c);
        assert(text@ == model::hexadecimal(n as nat));
        text
    } else {
        let mut text = hex_digits(n / 16);
        text.push(c);
        text
    }
}

/// A byte in two hexadecimal digits.
pub fn byte_text(n: u8) -> (r: String)
    ensures
        r@ == model::padded_left(model::hexadecimal(n as nat), '0', 2),
{
    let digits = hex_digits(n as u64);
    pad_left(digits.as_str(), '0', 2)
}

/// A machine word in hexadecimal digits with their prefix.
pub fn hex_text(n: isize) -> (r: String)
    ensures
        r@ == model::hex_word(n),
{
    let magnitude: usize = if n >= 0 {
        n as usize
    } else {
        usize::MAX - (-(n + 1)) as usize
    };
    let digits = hex_digits(magnitude as u64);
    let mut text = String::new();
    text.push('0');
    text.push('x');
    text.append(digits.as_str());
    assert(text@ == seq!['0', 'x'] + digits@);
    text
}

proof fn lemma_digits_value_grows(s: Text, i: int)
    requires
        0 <= i <= s.len(),
        model::all_chars(s, model::digit_class()),
    ensures
        model::digits_value(s.take(i)) <= model::digits_value(s),
    decreases s.len(),
{
    if i == s.len() {
        assert(s.take(i) == s);
    } else {
        let shorter = s.drop_last();
        assert(forall|k: int| 0 <= k < shorter.len() ==> shorter[k] == s[k]);
        lemma_digits_value_grows(shorter, i);
        assert(shorter.take(i) == s.take(i));
        assert(model::is_digit(s[s.len() - 1]));
    }
}

/// The number that a text states in decimal digits, where it is one and is at most `max`.
pub fn parse_number(text: &str, max: u64) -> (r: Option<u64>)
    ensures
        match r {
            Some(n) => model::parsed_number(text@, max as nat) == Some(n as nat),
            None => model::parsed_number(text@, max as nat) is None,
        },
{
    let chars = chars_of(text);
    let start: usize = if chars.len() > 0 && chars[0] == '+' {
        1
    } else {
        0
    };
    let ghost digits = if text@.len() > 0 && text@[0] == '+' {
        text@.skip(1)
    } else {
        text@
    };
    assert(digits == text@.skip(start as int));
    if start == chars.len() {
        return None;
    }
    let mut value: u64 = 0;
    let mut i: usize = start;
    while i < chars.len()
        invariant
            start <= i <= chars@.len(),
            chars@ == text@,
            digits == text@.skip(start as int),
            forall|k: int| 0 <= k < i - start ==> model::is_digit(#[trigger] digits[k]),
            value == model::digits_value(digits.take(i - start)),
            value <= max,
            model::parsed_number(text@, max as nat) == (if digits.len() > 0 && model::all_chars(
                digits,
                model::digit_class(),
            ) && model::digits_value(digits) <= max {
                Some(model::digits_value(digits))
            } else {
                None
            }),
        decreases chars.len() - i,
    {
        let c = chars[i];
        assert(digits[i - start] == c);
        if !('0' <= c && c <= '9') {
            assert(!(model::digit_class())(digits[i - start]));
            return None;
        }
        let digit: u64 = (c as u8 - 48) as u64;
        assert(digits.take(i - start + 1).drop_last() == digits.take(i - start));
        assert(model::digits_value(digits.take(i - start + 1)) == value * 10 + digit);
        if value > max / 10 || digit > max || value * 10 > max - digit {
            proof {
                if model::all_chars(digits, model::digit_class()) {
                    lemma_digits_value_grows(digits, i - start + 1);
                }
            }
            return None;
        }
        value = value * 10 + digit;
        i += 1;
    }
    assert(digits.take(i - start) == digits);
    Some(value)
}

} // verus!
