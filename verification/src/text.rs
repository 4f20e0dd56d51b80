//! Characters and digits: the small pieces that every generated text is made of.
//!
//! Two functions of std carry a contract here that Verus takes on trust:
//! `String::push` and `str::to_lowercase`.

use vstd::prelude::*;

verus! {

/// `String::push` of std appends one character to the end of the text and
/// leaves what was there before untouched.
pub assume_specification[ String::push ](text: &mut String, c: char)
    ensures
        final(text)@ == old(text)@.push(c),
;

/// The lower-case form of `text` by the rules of Unicode, as `str::to_lowercase`
/// of std gives it.
pub uninterp spec fn lowercase_of(text: Seq<char>) -> Seq<char>;

/// Whether every character of `text` is an ASCII character.
pub open spec fn is_ascii_text(text: Seq<char>) -> bool {
    forall|i: int| 0 <= i < text.len() ==> text[i] <= '\u{7f}'
}

/// The lower-case form of an ASCII character: `A` to `Z` become `a` to `z`,
/// every other character stays as it is.
pub open spec fn ascii_lower(c: char) -> char {
    if 'A' <= c <= 'Z' {
        (c as u8 + 32) as u8 as char
    } else {
        c
    }
}

/// `text` with each character replaced by its `ascii_lower`.
pub open spec fn ascii_lowercase(text: Seq<char>) -> Seq<char> {
    text.map_values(|c: char| ascii_lower(c))
}

/// `str::to_lowercase` of std returns the lower-case equivalent of the text as
/// Unicode defines it, which is named here and not spelled out. On a text of
/// ASCII characters alone that mapping is the ASCII one: the capital letters
/// go to their small forms and nothing else changes.
pub assume_specification[ str::to_lowercase ](text: &str) -> (lowered: String)
    ensures
        lowered@ == lowercase_of(text@),
        is_ascii_text(text@) ==> lowered@ == ascii_lowercase(text@),
;

/// Whether `c` is one of the ten decimal digits.
pub open spec fn is_digit(c: char) -> bool {
    '0' <= c <= '9'
}

/// Whether `c` is a decimal digit or an unaccented Latin letter of either case.
pub open spec fn is_alphanumeric(c: char) -> bool {
    ('0' <= c <= '9') || ('a' <= c <= 'z') || ('A' <= c <= 'Z')
}

/// Whether `c` is a decimal digit or one of the letters `a` to `f`.
pub open spec fn is_lower_hex(c: char) -> bool {
    ('0' <= c <= '9') || ('a' <= c <= 'f')
}

/// The character that shows the decimal digit `d`.
pub open spec fn digit_char(d: int) -> char
    recommends
        0 <= d <= 9,
{
    (48 + d) as u8 as char
}

/// Whether every entry of `digits` is a decimal digit, that is, at most nine.
pub open spec fn all_digits(digits: Seq<u8>) -> bool {
    forall|i: int| 0 <= i < digits.len() ==> digits[i] <= 9
}

/// The text that shows `digits` one after the other, leading zeros included.
pub open spec fn digits_text(digits: Seq<u8>) -> Seq<char> {
    digits.map_values(|d: u8| digit_char(d as int))
}

/// The text whose characters are the given bytes, taken one for one.
pub open spec fn bytes_text(bytes: Seq<u8>) -> Seq<char> {
    bytes.map_values(|b: u8| b as char)
}

/// `n` written with two decimal digits, a leading zero where `n` is below ten.
pub open spec fn two_digits(n: int) -> Seq<char>
    recommends
        0 <= n <= 99,
{
    seq![digit_char(n / 10), digit_char(n % 10)]
}

/// The last three decimal digits of `n`: for a number below a thousand, `n`
/// written with three digits.
pub open spec fn three_digits(n: int) -> Seq<char>
    recommends
        0 <= n,
{
    seq![digit_char((n / 100) % 10), digit_char((n / 10) % 10), digit_char(n % 10)]
}

/// Each character of `chars` as a text of its own, in the same order.
pub open spec fn singles(chars: Seq<char>) -> Seq<Seq<char>> {
    Seq::new(chars.len(), |i: int| seq![chars[i]])
}

/// The character of one decimal digit.
pub(crate) fn digit(d: u8) -> (c: char)
    requires
        d <= 9,
    ensures
        c == digit_char(d as int),
        is_digit(c),
{
    (48u8 + d) as char
}

/// Appends the characters of `digits` to `text`.
pub(crate) fn push_digits(text: &mut String, digits: &Vec<u8>)
    requires
        all_digits(digits@),
    ensures
        final(text)@ == old(text)@ + digits_text(digits@),
{
    let mut i: usize = 0;
    while i < digits.len()
        invariant
            i <= digits.len(),
            all_digits(digits@),
            text@ == old(text)@ + digits_text(digits@.subrange(0, i as int)),
        decreases digits.len() - i,
    {
        text.push(digit(digits[i]));
        i += 1;
    }
}

/// Appends to `text` one character for each byte of `bytes`.
pub(crate) fn push_bytes(text: &mut String, bytes: &Vec<u8>)
    ensures
        final(text)@ == old(text)@ + bytes_text(bytes@),
{
    let mut i: usize = 0;
    while i < bytes.len()
        invariant
            i <= bytes.len(),
            text@ == old(text)@ + bytes_text(bytes@.subrange(0, i as int)),
        decreases bytes.len() - i,
    {
        text.push(bytes[i] as char);
        i += 1;
    }
}

/// The last three decimal digits of `n` as a text.
pub(crate) fn three_digit_text(n: u16) -> (text: String)
    ensures
        text@ == three_digits(n as int),
{
    let mut text = String::new();
    text.push(digit(((n / 100) % 10) as u8));
    text.push(digit(((n / 10) % 10) as u8));
    text.push(digit((n % 10) as u8));
    text
}

/// Whether `text` begins with the whole of `prefix`.
pub(crate) fn starts_with(text: &str, prefix: &str) -> (found: bool)
    ensures
        found == prefix@.is_prefix_of(text@),
{
    let n: usize = prefix.unicode_len();
    let m: usize = text.unicode_len();
    if n > m {
        return false;
    }
    let mut i: usize = 0;
    while i < n
        invariant
            i <= n <= m,
            n == prefix@.len(),
            m == text@.len(),
            forall|j: int| 0 <= j < i ==> prefix@[j] == text@[j],
        decreases n - i,
    {
        if prefix.get_char(i) != text.get_char(i) {
            return false;
        }
        i += 1;
    }
    true
}

} // verus!
