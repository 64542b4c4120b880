//! The format check for identifiers.

use vstd::prelude::*;
use vstd::utf8::{is_ascii_chars, is_ascii_chars_encode_utf8};
use crate::alphabet::{
    all_symbols, char_is_lower_letter, char_is_symbol, is_lower_letter, is_symbol, well_formed,
};

verus! {

/// `id` has the format of an identifier and its length lies in
/// `[min_length, max_length]`.
pub open spec fn valid_cuid(id: Seq<char>, min_length: nat, max_length: nat) -> bool {
    well_formed(id) && min_length <= id.len() <= max_length
}

/// A sequence with a character outside ASCII holds a character outside the
/// 36-symbol alphabet.
proof fn lemma_symbols_are_ascii(s: Seq<char>)
    requires
        all_symbols(s),
    ensures
        is_ascii_chars(s),
{
    assert forall|i: int| 0 <= i < s.len() implies '\0' <= #[trigger] s[i] <= '\u{7f}' by {
        assert(is_symbol(s[i]));
    }
}

/// Checks the format of `id` and that its length lies in
/// `[min_length, max_length]`. Says nothing of where `id` came from.
pub fn is_valid_cuid(id: &str, min_length: usize, max_length: usize) -> (valid: bool)
    ensures
        valid == valid_cuid(id@, min_length as nat, max_length as nat),
{
    if !id.is_ascii() {
        proof {
            if all_symbols(id@) {
                lemma_symbols_are_ascii(id@);
            }
        }
        return false;
    }
    let bytes = id.as_bytes();
    proof {
        is_ascii_chars_encode_utf8(id@);
    }
    let n = bytes.len();
    if n == 0 {
        return false;
    }
    let starts_with_letter = char_is_lower_letter(bytes[0] as char);
    assert(starts_with_letter == is_lower_letter(id@[0]));
    let mut valid_format = true;
    let mut i: usize = 0;
    while i < n
        invariant
            i <= n,
            n == bytes@.len(),
            n == id@.len(),
            is_ascii_chars(id@),
            forall|j: int| 0 <= j < n ==> id@[j] as u8 == #[trigger] bytes@[j],
            valid_format == all_symbols(id@.take(i as int)),
        decreases n - i,
    {
        let b = bytes[i];
        let symbol = char_is_symbol(b as char);
        proof {
            let before = id@.take(i as int);
            let after = id@.take(i + 1);
            assert(symbol == is_symbol(id@[i as int]));
            assert(after[i as int] == id@[i as int]);
            assert forall|j: int| 0 <= j < before.len() implies before[j] == after[j] by {}
            if all_symbols(after) {
                assert forall|j: int| 0 <= j < before.len() implies is_symbol(
                    #[trigger] before[j],
                ) by {
                    assert(is_symbol(after[j]));
                }
            }
            if all_symbols(before) && symbol {
                assert forall|j: int| 0 <= j < after.len() implies is_symbol(
                    #[trigger] after[j],
                ) by {
                    if j < i {
                        assert(is_symbol(before[j]));
                    }
                }
            }
        }
        if !symbol {
            valid_format = false;
        }
        i = i + 1;
    }
    assert(id@.take(n as int) =~= id@);
    starts_with_letter && valid_format && min_length <= n && n <= max_length
}

} // verus!
