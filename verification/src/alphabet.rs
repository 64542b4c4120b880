//! The characters an identifier is made of.

use vstd::prelude::*;

verus! {

/// `c` is one of the 26 ASCII lowercase letters.
pub open spec fn is_lower_letter(c: char) -> bool {
    'a' <= c <= 'z'
}

/// `c` is one of the 10 ASCII decimal digits.
pub open spec fn is_decimal_digit(c: char) -> bool {
    '0' <= c <= '9'
}

/// `c` belongs to the 36-symbol alphabet of lowercase letters and digits.
pub open spec fn is_symbol(c: char) -> bool {
    is_lower_letter(c) || is_decimal_digit(c)
}

/// Every character of `s` belongs to the 36-symbol alphabet.
pub open spec fn all_symbols(s: Seq<char>) -> bool {
    forall|i: int| 0 <= i < s.len() ==> is_symbol(#[trigger] s[i])
}

/// The format of an identifier: not empty, a lowercase letter first, and
/// nothing but lowercase letters and digits.
pub open spec fn well_formed(id: Seq<char>) -> bool {
    &&& id.len() > 0
    &&& is_lower_letter(id[0])
    &&& all_symbols(id)
}

/// Tests whether `c` is an ASCII lowercase letter.
pub fn char_is_lower_letter(c: char) -> (b: bool)
    ensures
        b == is_lower_letter(c),
{
    'a' <= c && c <= 'z'
}

/// Tests whether `c` is an ASCII lowercase letter or an ASCII digit.
pub fn char_is_symbol(c: char) -> (b: bool)
    ensures
        b == is_symbol(c),
{
    ('a' <= c && c <= 'z') || ('0' <= c && c <= '9')
}

/// The symbol that stands for a base-36 digit value: `0` to `9`, then `a` to
/// `z`.
pub open spec fn base36_symbol(value: nat) -> char {
    if value < 10 {
        ('0' as nat + value) as char
    } else {
        ('a' as nat + value - 10) as char
    }
}

/// The lowercase letter at a position of the alphabet, `a` at position 0.
pub open spec fn letter_at(position: nat) -> char {
    ('a' as nat + position) as char
}

/// Renders a base-36 digit value as its symbol.
pub fn base36_char(value: u32) -> (c: char)
    requires
        value < 36,
    ensures
        c == base36_symbol(value as nat),
        is_symbol(c),
{
    if value < 10 {
        (48u8 + (value as u8)) as char
    } else {
        (87u8 + (value as u8)) as char
    }
}

/// The lowercase letter at `position` of the alphabet.
pub fn letter_char(position: u32) -> (c: char)
    requires
        position < 26,
    ensures
        c == letter_at(position as nat),
        is_lower_letter(c),
{
    (97u8 + (position as u8)) as char
}

} // verus!
