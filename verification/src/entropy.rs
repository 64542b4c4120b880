//! The entropy source: strings and letters drawn from a ChaCha20 stream that
//! is seeded afresh from the operating system for every draw.

use vstd::prelude::*;
use rand::rand_core::OsError;
use rand::rngs::OsRng;
use rand::{Rng, SeedableRng, TryRngCore};
use rand_chacha::ChaCha20Rng;
use crate::alphabet::{
    all_symbols, base36_char, base36_symbol, is_lower_letter, is_symbol, letter_at, letter_char,
};
use crate::error::CuidError;

verus! {

/// Number of symbols in the entropy alphabet.
pub const SYMBOLS: u32 = 36;

/// Number of lowercase letters.
pub const LETTERS: u32 = 26;

/// The ChaCha20 generator of `rand_chacha`, carried through as it is.
#[verifier::external_type_specification]
#[verifier::external_body]
pub struct ExChaCha20Rng(ChaCha20Rng);

/// The stream that `ChaCha20Rng::seed_from_u64` makes of a seed.
pub uninterp spec fn stream_of(seed: u64) -> ChaCha20Rng;

/// The value that a stream yields when asked for one below `bound`.
pub uninterp spec fn drawn(stream: ChaCha20Rng, bound: u32) -> u32;

/// The stream as it stands after yielding one value below `bound`.
pub uninterp spec fn after_draw(stream: ChaCha20Rng, bound: u32) -> ChaCha20Rng;

/// The stream as it stands after yielding `count` symbols.
pub open spec fn after_symbols(stream: ChaCha20Rng, count: nat) -> ChaCha20Rng
    decreases count,
{
    if count == 0 {
        stream
    } else {
        after_symbols(after_draw(stream, SYMBOLS), (count - 1) as nat)
    }
}

/// The first `count` symbols of a stream: each is the base-36 symbol of one
/// value drawn below 36, in the order of the draws.
pub open spec fn symbols_from(stream: ChaCha20Rng, count: nat) -> Seq<char>
    decreases count,
{
    if count == 0 {
        Seq::<char>::empty()
    } else {
        seq![base36_symbol(drawn(stream, SYMBOLS) as nat)] + symbols_from(
            after_draw(stream, SYMBOLS),
            (count - 1) as nat,
        )
    }
}

/// The letter that a stream yields first: the one at the position drawn
/// below 26.
pub open spec fn letter_from(stream: ChaCha20Rng) -> char {
    letter_at(drawn(stream, LETTERS) as nat)
}

/// `text` is an entropy string of `length` symbols.
pub open spec fn is_entropy(text: Seq<char>, length: nat) -> bool {
    text.len() == length && all_symbols(text)
}

/// Calls `OsRng.try_next_u64()` of `rand`: 64 bits from the operating
/// system's random source, or its error. Nothing is claimed of the value.
#[verifier::external_body]
fn os_seed() -> (seed: Result<u64, OsError>) {
    OsRng.try_next_u64()
}

/// Calls `ChaCha20Rng::seed_from_u64` of `rand_chacha`. Trusted: the stream
/// depends on the seed alone; `stream_of` names it.
#[verifier::external_body]
fn seeded_stream(seed: u64) -> (stream: ChaCha20Rng)
    ensures
        stream == stream_of(seed),
{
    ChaCha20Rng::seed_from_u64(seed)
}

/// Calls `Rng::random_range(0..bound)` of `rand` on the stream. Trusted: the
/// value lies below `bound`, and both the value and the stream left behind
/// depend on the stream and the bound alone; `drawn` and `after_draw` name
/// them. The call panics on an empty range, which the precondition excludes.
#[verifier::external_body]
fn draw_below(stream: &mut ChaCha20Rng, bound: u32) -> (value: u32)
    requires
        bound > 0,
    ensures
        value < bound,
        value == drawn(*old(stream), bound),
        *final(stream) == after_draw(*old(stream), bound),
{
    stream.random_range(0..bound)
}

/// Drawing `first` symbols and then `second` more is drawing them all.
pub proof fn lemma_symbols_split(stream: ChaCha20Rng, first: nat, second: nat)
    ensures
        symbols_from(stream, first + second) == symbols_from(stream, first) + symbols_from(
            after_symbols(stream, first),
            second,
        ),
        after_symbols(stream, first + second) == after_symbols(
            after_symbols(stream, first),
            second,
        ),
    decreases first,
{
    if first == 0 {
        assert(symbols_from(stream, first) + symbols_from(stream, second) =~= symbols_from(
            stream,
            second,
        ));
    } else {
        let next = after_draw(stream, SYMBOLS);
        let head = seq![base36_symbol(drawn(stream, SYMBOLS) as nat)];
        lemma_symbols_split(next, (first - 1) as nat, second);
        assert(symbols_from(stream, first + second) == head + symbols_from(
            next,
            (first + second - 1) as nat,
        ));
        assert(head + (symbols_from(next, (first - 1) as nat) + symbols_from(
            after_symbols(next, (first - 1) as nat),
            second,
        )) =~= (head + symbols_from(next, (first - 1) as nat)) + symbols_from(
            after_symbols(next, (first - 1) as nat),
            second,
        ));
    }
}

/// Equal seeds and equal lengths give equal entropy text.
pub proof fn lemma_entropy_is_deterministic(
    seed: u64,
    length: nat,
    first: Seq<char>,
    second: Seq<char>,
)
    requires
        first == symbols_from(stream_of(seed), length),
        second == symbols_from(stream_of(seed), length),
    ensures
        first == second,
{
}

/// Draws `length` symbols from `stream`, one draw below 36 for each, and
/// leaves the stream where the last draw left it.
pub fn entropy_from_stream(stream: &mut ChaCha20Rng, length: usize) -> (text: String)
    ensures
        text@ == symbols_from(*old(stream), length as nat),
        *final(stream) == after_symbols(*old(stream), length as nat),
        is_entropy(text@, length as nat),
{
    let ghost start = *stream;
    let mut text = String::new();
    let mut count: usize = 0;
    proof {
        assert(text@ =~= symbols_from(start, 0));
    }
    while count < length
        invariant
            count <= length,
            is_entropy(text@, count as nat),
            text@ == symbols_from(start, count as nat),
            *stream == after_symbols(start, count as nat),
        decreases length - count,
    {
        let ghost before = *stream;
        let value = draw_below(stream, SYMBOLS);
        let c = base36_char(value);
        proof {
            lemma_symbols_split(start, count as nat, 1);
            assert(symbols_from(before, 1) =~= seq![c]) by {
                assert(symbols_from(after_draw(before, SYMBOLS), 0) =~= Seq::<char>::empty());
            }
            assert(after_symbols(before, 1) == after_draw(before, SYMBOLS)) by {
                assert(after_symbols(after_draw(before, SYMBOLS), 0) == after_draw(
                    before,
                    SYMBOLS,
                ));
            }
            assert(text@.push(c) =~= text@ + seq![c]);
            let longer = text@.push(c);
            assert forall|i: int| 0 <= i < longer.len() implies is_symbol(#[trigger] longer[i]) by {
                if i < text@.len() {
                    assert(longer[i] == text@[i]);
                }
            }
        }
        text.push(c);
        count = count + 1;
    }
    text
}

/// Turns the outcome of reading a seed into an entropy string of `length`
/// symbols: a seed gives the first `length` symbols of the stream that it
/// seeds, a failed read gives its error.
pub fn entropy_from_seed(seed: Result<u64, OsError>, length: usize) -> (result: Result<
    String,
    CuidError,
>)
    ensures
        match seed {
            Ok(value) => {
                &&& result matches Ok(text)
                &&& text@ == symbols_from(stream_of(value), length as nat)
                &&& is_entropy(text@, length as nat)
            },
            Err(err) => result == Err::<String, CuidError>(CuidError::RandChaChaError(err)),
        },
{
    match seed {
        Ok(value) => {
            let mut stream = seeded_stream(value);
            Ok(entropy_from_stream(&mut stream, length))
        },
        Err(err) => Err(CuidError::RandChaChaError(err)),
    }
}

/// Random lowercase-alphanumeric text of `length` symbols, from a stream
/// seeded by the operating system. Fails only when the seed cannot be read.
pub fn generate_entropy(length: usize) -> (result: Result<String, CuidError>)
    ensures
        match result {
            Ok(text) => {
                &&& is_entropy(text@, length as nat)
                &&& exists|seed: u64| text@ == symbols_from(#[trigger] stream_of(seed), length as nat)
            },
            Err(err) => err is RandChaChaError,
        },
{
    let seed = os_seed();
    let result = entropy_from_seed(seed, length);
    proof {
        if let Ok(value) = seed {
            assert(result->Ok_0@ == symbols_from(stream_of(value), length as nat));
        }
    }
    result
}

/// Turns the outcome of reading a seed into a lowercase letter: a seed gives
/// the letter at the position that its stream yields first, a failed read
/// gives its error.
pub fn letter_from_seed(seed: Result<u64, OsError>) -> (result: Result<char, CuidError>)
    ensures
        match seed {
            Ok(value) => {
                &&& result == Ok::<char, CuidError>(letter_from(stream_of(value)))
                &&& is_lower_letter(letter_from(stream_of(value)))
            },
            Err(err) => result == Err::<char, CuidError>(CuidError::RandChaChaError(err)),
        },
{
    match seed {
        Ok(value) => {
            let mut stream = seeded_stream(value);
            let position = draw_below(&mut stream, LETTERS);
            Ok(letter_char(position))
        },
        Err(err) => Err(CuidError::RandChaChaError(err)),
    }
}

/// A random lowercase letter, from a stream seeded by the operating system.
/// Fails only when the seed cannot be read.
pub fn generate_random_letter() -> (result: Result<char, CuidError>)
    ensures
        match result {
            Ok(letter) => {
                &&& is_lower_letter(letter)
                &&& exists|seed: u64| letter == letter_from(#[trigger] stream_of(seed))
            },
            Err(err) => err is RandChaChaError,
        },
{
    let seed = os_seed();
    let result = letter_from_seed(seed);
    proof {
        if let Ok(value) = seed {
            assert(result->Ok_0 == letter_from(stream_of(value)));
        }
    }
    result
}

} // verus!
