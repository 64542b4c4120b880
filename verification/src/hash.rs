//! The hash compressor: SHA3-512 of a string, as lowercase hexadecimal, cut
//! to a requested length.

use vstd::prelude::*;
use vstd::string::{StrSliceExecFns, StringSliceAdditionalSpecFns};
use vstd::utf8::{encode_utf8, is_ascii_chars};
use sha3::{Digest, Sha3_512};

verus! {

/// Number of bytes in a SHA3-512 digest.
pub const DIGEST_BYTES: usize = 64;

/// Number of characters in the hexadecimal form of a SHA3-512 digest.
pub const DIGEST_HEX_LENGTH: usize = 128;

/// The SHA3-512 digest of `data`. The function itself is not defined here;
/// the digest is whatever the `sha3` crate computes.
pub uninterp spec fn sha3_512(data: Seq<u8>) -> Seq<u8>;

/// The lowercase hexadecimal digit for a value below 16.
pub open spec fn hex_digit(nibble: int) -> char {
    if nibble < 10 {
        ('0' as int + nibble) as char
    } else {
        ('a' as int + nibble - 10) as char
    }
}

/// The lowercase hexadecimal form of `bytes`: two digits per byte, the high
/// half first.
pub open spec fn hex_of(bytes: Seq<u8>) -> Seq<char> {
    Seq::new(
        2 * bytes.len(),
        |i: int|
            if i % 2 == 0 {
                hex_digit(bytes[i / 2] as int / 16)
            } else {
                hex_digit(bytes[i / 2] as int % 16)
            },
    )
}

/// The first `length` characters of the hexadecimal SHA3-512 digest of the
/// UTF-8 bytes of `input`.
pub open spec fn digest_prefix(input: Seq<char>, length: nat) -> Seq<char> {
    hex_of(sha3_512(encode_utf8(input))).take(length as int)
}

/// `c` is a lowercase hexadecimal digit.
pub open spec fn is_hex_digit(c: char) -> bool {
    ('0' <= c <= '9') || ('a' <= c <= 'f')
}

/// Calls `Sha3_512::digest` of the `sha3` crate on `data`. Trusted: the
/// result is the digest that `sha3_512` names, and it has 64 bytes.
#[verifier::external_body]
fn sha3_512_digest(data: &[u8]) -> (digest: Vec<u8>)
    ensures
        digest@ == sha3_512(data@),
        digest@.len() == DIGEST_BYTES,
{
    Sha3_512::digest(data).to_vec()
}

/// Calls `hex::encode` on `bytes`. Trusted: the result is the lowercase
/// hexadecimal form of the bytes, two digits each, high half first.
#[verifier::external_body]
fn hex_encode(bytes: &[u8]) -> (text: String)
    ensures
        text@ == hex_of(bytes@),
{
    hex::encode(bytes)
}

/// Every character of a hexadecimal form is a hexadecimal digit.
pub proof fn lemma_hex_of_digits(bytes: Seq<u8>)
    ensures
        hex_of(bytes).len() == 2 * bytes.len(),
        forall|i: int| 0 <= i < hex_of(bytes).len() ==> is_hex_digit(#[trigger] hex_of(bytes)[i]),
{
    assert forall|i: int| 0 <= i < hex_of(bytes).len() implies is_hex_digit(
        #[trigger] hex_of(bytes)[i],
    ) by {
        let b = bytes[i / 2] as int;
        assert(0 <= b / 16 < 16);
        assert(0 <= b % 16 < 16);
    }
}

/// A digest prefix of at most 128 characters has exactly the requested
/// length and holds hexadecimal digits only.
pub proof fn lemma_digest_prefix(input: Seq<char>, length: nat)
    requires
        length <= DIGEST_HEX_LENGTH,
        sha3_512(encode_utf8(input)).len() == DIGEST_BYTES,
    ensures
        digest_prefix(input, length).len() == length,
        forall|i: int|
            0 <= i < length ==> is_hex_digit(#[trigger] digest_prefix(input, length)[i]),
{
    let full = hex_of(sha3_512(encode_utf8(input)));
    lemma_hex_of_digits(sha3_512(encode_utf8(input)));
    assert forall|i: int| 0 <= i < length implies is_hex_digit(
        #[trigger] digest_prefix(input, length)[i],
    ) by {
        assert(digest_prefix(input, length)[i] == full[i]);
    }
}

/// A shorter digest prefix is the start of every longer one of the same
/// input.
pub proof fn lemma_shorter_is_prefix(input: Seq<char>, shorter: nat, longer: nat)
    requires
        shorter <= longer <= DIGEST_HEX_LENGTH,
        sha3_512(encode_utf8(input)).len() == DIGEST_BYTES,
    ensures
        digest_prefix(input, shorter) == digest_prefix(input, longer).take(shorter as int),
{
    lemma_hex_of_digits(sha3_512(encode_utf8(input)));
    assert(digest_prefix(input, shorter) =~= digest_prefix(input, longer).take(shorter as int));
}

/// Hashing the same input to the same length twice gives the same text.
pub proof fn lemma_hash_is_deterministic(
    input: Seq<char>,
    length: nat,
    first: Seq<char>,
    second: Seq<char>,
)
    requires
        first == digest_prefix(input, length),
        second == digest_prefix(input, length),
    ensures
        first == second,
{
}

/// Hashes the UTF-8 bytes of `input` with SHA3-512 and returns the first
/// `length` characters of the digest's lowercase hexadecimal form.
pub fn compute_hash(input: &str, length: usize) -> (hashed: String)
    requires
        length <= DIGEST_HEX_LENGTH,
    ensures
        hashed@ == digest_prefix(input@, length as nat),
        sha3_512(encode_utf8(input@)).len() == DIGEST_BYTES,
        hashed@.len() == length,
        forall|i: int| 0 <= i < length ==> is_hex_digit(#[trigger] hashed@[i]),
{
    let digest = sha3_512_digest(input.as_bytes());
    let hex = hex_encode(digest.as_slice());
    proof {
        lemma_hex_of_digits(digest@);
        lemma_digest_prefix(input@, length as nat);
        assert forall|i: int| 0 <= i < hex@.len() implies '\0' <= #[trigger] hex@[i]
            <= '\u{7f}' by {
            assert(is_hex_digit(hex@[i]));
        }
        assert(is_ascii_chars(hex@));
    }
    let prefix = hex.as_str().substring_ascii(0, length);
    prefix.to_owned()
}

} // verus!
