use vstd::prelude::*;

verus! {

/// The ten decimal digits.
pub open spec fn is_digit(c: char) -> bool {
    '0' <= c <= '9'
}

/// The number that a text of decimal digits writes.
pub open spec fn digits_value(digits: Seq<char>) -> nat
    decreases digits.len(),
{
    if digits.len() == 0 {
        0
    } else {
        (digits_value(digits.drop_last()) * 10 + (digits.last() as int - '0' as int)) as nat
    }
}

/// The number that `text` writes in decimal: an optional `+`, then one digit or more and
/// nothing else, and a value that fits; `None` for every other text.
pub open spec fn decimal_u32(text: Seq<char>) -> Option<u32> {
    let digits = if text.len() > 0 && text[0] == '+' {
        text.drop_first()
    } else {
        text
    };
    if digits.len() > 0 && (forall|i: int| 0 <= i < digits.len() ==> is_digit(#[trigger] digits[i]))
        && digits_value(digits) <= u32::MAX {
        Some(digits_value(digits) as u32)
    } else {
        None
    }
}

/// The decimal digits of `n`, without a sign and without leading zeros.
pub open spec fn decimal_digits(n: nat) -> Seq<char>
    decreases n,
{
    if n < 10 {
        seq![('0' as u8 + n) as u8 as char]
    } else {
        decimal_digits(n / 10).push(('0' as u8 + n % 10) as u8 as char)
    }
}

/// Calls `str::parse::<u32>`, which reads an optional `+` sign followed by decimal digits
/// only, and fails on the empty text, on any other character and on a value over
/// `u32::MAX`.
#[verifier::external_body]
pub(crate) fn parse_u32(text: &str) -> (number: Option<u32>)
    ensures
        number == decimal_u32(text@),
{
    text.parse::<u32>().ok()
}

/// Calls `u32::to_string`, which writes the number in decimal.
#[verifier::external_body]
pub(crate) fn u32_to_string(number: u32) -> (text: String)
    ensures
        text@ == decimal_digits(number as nat),
{
    number.to_string()
}

/// The number that names an episode's file, if the name, without its extension, is one.
pub fn episode_id_of(stem: &str) -> (id: Option<u32>)
    ensures
        id == decimal_u32(stem@),
{
    parse_u32(stem)
}

} // verus!
