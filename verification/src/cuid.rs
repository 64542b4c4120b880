//! The identifier assembler: time, counter, entropy and fingerprint hashed
//! into one string that starts with a random letter.

use vstd::prelude::*;
use vstd::string::{StrSliceExecFns, StringExecFns};
use vstd::utf8::is_ascii_chars;
use crate::alphabet::{all_symbols, is_lower_letter, is_symbol, well_formed};
use crate::clock::unix_millis;
use crate::counter::{next_value, Counter};
use crate::decimal::{decimal, to_decimal};
use crate::entropy::{generate_entropy, generate_random_letter, is_entropy};
use crate::error::CuidError;
use crate::hash::{compute_hash, digest_prefix, is_hex_digit, DIGEST_HEX_LENGTH};
use crate::validate::valid_cuid;

verus! {

/// Length of an identifier when none is asked for.
pub const DEFAULT_LENGTH: usize = 24;

/// Largest length of an identifier.
pub const MAX_LENGTH: usize = 32;

/// Smallest length of an identifier.
pub const MIN_LENGTH: usize = 2;

/// `length` is a length that an identifier can have.
pub open spec fn is_valid_length(length: nat) -> bool {
    MIN_LENGTH <= length <= MAX_LENGTH
}

/// `text` is the digest, cut to the largest identifier length, of some
/// entropy string of that length.
pub open spec fn is_fingerprint(text: Seq<char>) -> bool {
    exists|entropy: Seq<char>| #[trigger]
        is_entropy(entropy, MAX_LENGTH as nat) && text == digest_prefix(entropy, MAX_LENGTH as nat)
}

/// What is hashed for one identifier: the time in decimal, the salt, the
/// counter in decimal and the fingerprint, in this order.
pub open spec fn hash_input(
    millis: u128,
    salt: Seq<char>,
    counter: u64,
    fingerprint: Seq<char>,
) -> Seq<char> {
    decimal(millis as nat) + salt + decimal(counter as nat) + fingerprint
}

/// The identifier built from its parts: the letter, then the digest of the
/// hash input cut to `length` characters, without the digest's first one.
pub open spec fn cuid_of(
    first_letter: char,
    millis: u128,
    salt: Seq<char>,
    counter: u64,
    fingerprint: Seq<char>,
    length: nat,
) -> Seq<char> {
    seq![first_letter] + digest_prefix(
        hash_input(millis, salt, counter, fingerprint),
        length,
    ).subrange(1, length as int)
}

/// `id` is the identifier of `length` characters for the counter value
/// `counter`, some lowercase letter, some time, some salt of `length`
/// symbols and some fingerprint.
pub open spec fn is_generated(id: Seq<char>, length: nat, counter: u64) -> bool {
    exists|first_letter: char, millis: u128, salt: Seq<char>, fingerprint: Seq<char>|
        {
            &&& is_lower_letter(first_letter)
            &&& is_entropy(salt, length)
            &&& is_fingerprint(fingerprint)
            &&& id == #[trigger] cuid_of(first_letter, millis, salt, counter, fingerprint, length)
        }
}

/// A hexadecimal digit belongs to the 36-symbol alphabet.
pub proof fn lemma_hex_digit_is_symbol(c: char)
    requires
        is_hex_digit(c),
    ensures
        is_symbol(c),
{
}

/// An identifier of an accepted length that is well formed passes the
/// validator's test against the smallest and largest length.
pub proof fn lemma_generated_is_valid(id: Seq<char>, length: nat)
    requires
        is_valid_length(length),
        id.len() == length,
        well_formed(id),
    ensures
        valid_cuid(id, MIN_LENGTH as nat, MAX_LENGTH as nat),
{
}

/// Turns the outcome of drawing entropy into a fingerprint: entropy gives
/// its digest cut to the largest identifier length, a failed draw gives its
/// error as it is.
pub fn fingerprint_from_entropy(entropy: Result<String, CuidError>) -> (result: Result<
    String,
    CuidError,
>)
    ensures
        match entropy {
            Ok(text) => {
                &&& result matches Ok(fingerprint)
                &&& fingerprint@ == digest_prefix(text@, MAX_LENGTH as nat)
                &&& fingerprint@.len() == MAX_LENGTH
                &&& forall|i: int|
                    0 <= i < MAX_LENGTH ==> is_hex_digit(#[trigger] fingerprint@[i])
            },
            Err(err) => result == Err::<String, CuidError>(err),
        },
{
    match entropy {
        Ok(text) => Ok(compute_hash(text.as_str(), MAX_LENGTH)),
        Err(err) => Err(err),
    }
}

/// A fingerprint: fresh entropy of the largest identifier length, hashed
/// down to that length. Fails only when the entropy source fails.
pub fn generate_fingerprint() -> (result: Result<String, CuidError>)
    ensures
        match result {
            Ok(fingerprint) => {
                &&& is_fingerprint(fingerprint@)
                &&& fingerprint@.len() == MAX_LENGTH
                &&& forall|i: int|
                    0 <= i < MAX_LENGTH ==> is_hex_digit(#[trigger] fingerprint@[i])
                &&& all_symbols(fingerprint@)
            },
            Err(err) => err is RandChaChaError,
        },
{
    let entropy = generate_entropy(MAX_LENGTH);
    let ghost outcome = entropy;
    let result = fingerprint_from_entropy(entropy);
    proof {
        if let Ok(text) = outcome {
            let fingerprint = result->Ok_0;
            assert(is_entropy(text@, MAX_LENGTH as nat));
            assert(fingerprint@ == digest_prefix(text@, MAX_LENGTH as nat));
            assert forall|i: int| 0 <= i < fingerprint@.len() implies is_symbol(
                #[trigger] fingerprint@[i],
            ) by {
                lemma_hex_digit_is_symbol(fingerprint@[i]);
            }
        }
    }
    result
}

/// Builds the identifier of `length` characters from the parts that were
/// drawn and read for it.
pub fn assemble_cuid(
    first_letter: char,
    millis: u128,
    salt: &str,
    counter: u64,
    fingerprint: &str,
    length: usize,
) -> (id: String)
    requires
        1 <= length <= DIGEST_HEX_LENGTH,
    ensures
        id@ == cuid_of(first_letter, millis, salt@, counter, fingerprint@, length as nat),
        id@.len() == length,
        id@[0] == first_letter,
        forall|i: int| 1 <= i < length ==> is_hex_digit(#[trigger] id@[i]),
        is_lower_letter(first_letter) ==> well_formed(id@),
{
    let mut input = to_decimal(millis);
    input.append(salt);
    let counter_digits = to_decimal(counter as u128);
    input.append(counter_digits.as_str());
    input.append(fingerprint);
    assert(input@ == hash_input(millis, salt@, counter, fingerprint@));
    let hashed = compute_hash(input.as_str(), length);
    proof {
        assert forall|i: int| 0 <= i < hashed@.len() implies '\0' <= #[trigger] hashed@[i]
            <= '\u{7f}' by {
            assert(is_hex_digit(hashed@[i]));
        }
        assert(is_ascii_chars(hashed@));
    }
    let tail = hashed.as_str().substring_ascii(1, length);
    let mut id = String::new();
    id.push(first_letter);
    id.append(tail);
    proof {
        assert(id@ =~= seq![first_letter] + hashed@.subrange(1, length as int));
        assert forall|i: int| 1 <= i < length implies is_hex_digit(#[trigger] id@[i]) by {
            assert(id@[i] == hashed@[i]);
        }
        if is_lower_letter(first_letter) {
            assert forall|i: int| 0 <= i < id@.len() implies is_symbol(#[trigger] id@[i]) by {
                if i >= 1 {
                    lemma_hex_digit_is_symbol(id@[i]);
                }
            }
        }
    }
    id
}

/// Generates an identifier of `length` characters.
///
/// A length outside `[MIN_LENGTH, MAX_LENGTH]` is refused before anything is
/// drawn and before the counter moves. Otherwise the letter is drawn and the
/// clock is read, the counter hands out its value and moves one step, and
/// salt and fingerprint are drawn; the first of these that fails ends the
/// call with its error.
pub fn generate_cuid(length: usize, counter: &mut Counter) -> (result: Result<String, CuidError>)
    ensures
        !is_valid_length(length as nat) <==> (result matches Err(err) && err is InvalidLength),
        !is_valid_length(length as nat) ==> result == Err::<String, CuidError>(
            CuidError::InvalidLength(length, MIN_LENGTH, MAX_LENGTH),
        ),
        match result {
            Ok(id) => {
                &&& id@.len() == length
                &&& well_formed(id@)
                &&& forall|i: int| 1 <= i < length ==> is_hex_digit(#[trigger] id@[i])
                &&& valid_cuid(id@, MIN_LENGTH as nat, MAX_LENGTH as nat)
                &&& is_generated(id@, length as nat, old(counter)@)
                &&& final(counter)@ == next_value(old(counter)@)
            },
            Err(CuidError::InvalidLength(_, _, _)) => final(counter)@ == old(counter)@,
            Err(CuidError::SystemTimeError(_)) => final(counter)@ == old(counter)@,
            Err(CuidError::RandChaChaError(_)) => {
                ||| final(counter)@ == old(counter)@
                ||| final(counter)@ == next_value(old(counter)@)
            },
        },
{
    if length < MIN_LENGTH || length > MAX_LENGTH {
        return Err(CuidError::InvalidLength(length, MIN_LENGTH, MAX_LENGTH));
    }
    let first_letter = match generate_random_letter() {
        Ok(letter) => letter,
        Err(err) => {
            return Err(err);
        },
    };
    let millis = match unix_millis() {
        Ok(millis) => millis,
        Err(err) => {
            return Err(err);
        },
    };
    let counter_value = counter.fetch_increment();
    let salt = match generate_entropy(length) {
        Ok(salt) => salt,
        Err(err) => {
            return Err(err);
        },
    };
    let fingerprint = match generate_fingerprint() {
        Ok(fingerprint) => fingerprint,
        Err(err) => {
            return Err(err);
        },
    };
    let id = assemble_cuid(
        first_letter,
        millis,
        salt.as_str(),
        counter_value,
        fingerprint.as_str(),
        length,
    );
    proof {
        assert(id@ == cuid_of(
            first_letter,
            millis,
            salt@,
            counter_value,
            fingerprint@,
            length as nat,
        ));
        lemma_generated_is_valid(id@, length as nat);
    }
    Ok(id)
}

/// Generates an identifier of the default length.
pub fn generate(counter: &mut Counter) -> (result: Result<String, CuidError>)
    ensures
        match result {
            Ok(id) => {
                &&& id@.len() == DEFAULT_LENGTH
                &&& well_formed(id@)
                &&& forall|i: int| 1 <= i < DEFAULT_LENGTH ==> is_hex_digit(#[trigger] id@[i])
                &&& valid_cuid(id@, MIN_LENGTH as nat, MAX_LENGTH as nat)
                &&& is_generated(id@, DEFAULT_LENGTH as nat, old(counter)@)
                &&& final(counter)@ == next_value(old(counter)@)
            },
            Err(CuidError::InvalidLength(_, _, _)) => false,
            Err(CuidError::SystemTimeError(_)) => final(counter)@ == old(counter)@,
            Err(CuidError::RandChaChaError(_)) => {
                ||| final(counter)@ == old(counter)@
                ||| final(counter)@ == next_value(old(counter)@)
            },
        },
{
    generate_cuid(DEFAULT_LENGTH, counter)
}

} // verus!
