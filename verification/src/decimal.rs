//! Decimal rendering of unsigned integers.

use vstd::prelude::*;
use crate::alphabet::is_decimal_digit;

verus! {

/// The character for a decimal digit value below 10.
pub open spec fn digit_char(d: nat) -> char {
    ('0' as nat + d) as char
}

/// The decimal digits of `n`, most significant first, without leading zeros;
/// zero is the single digit `0`.
pub open spec fn decimal(n: nat) -> Seq<char>
    decreases n,
{
    if n < 10 {
        seq![digit_char(n)]
    } else {
        decimal(n / 10).push(digit_char(n % 10))
    }
}

/// A decimal rendering is not empty and holds decimal digits only.
pub proof fn lemma_decimal_digits(n: nat)
    ensures
        decimal(n).len() >= 1,
        forall|i: int| 0 <= i < decimal(n).len() ==> is_decimal_digit(#[trigger] decimal(n)[i]),
    decreases n,
{
    if n >= 10 {
        lemma_decimal_digits(n / 10);
        assert(is_decimal_digit(digit_char(n % 10)));
    } else {
        assert(is_decimal_digit(digit_char(n)));
    }
}

/// Renders `n` in decimal.
pub fn to_decimal(n: u128) -> (text: String)
    ensures
        text@ == decimal(n as nat),
        text@.len() >= 1,
        forall|i: int| 0 <= i < text@.len() ==> is_decimal_digit(#[trigger] text@[i]),
{
    proof {
        lemma_decimal_digits(n as nat);
    }
    let mut reversed: Vec<char> = Vec::new();
    let mut rest: u128 = n;
    while rest >= 10
        invariant
            decimal(n as nat) == decimal(rest as nat) + reversed@.reverse(),
        decreases rest,
    {
        let d: u8 = (rest % 10) as u8;
        let c: char = (48u8 + d) as char;
        proof {
            let low = seq![digit_char((rest % 10) as nat)];
            assert(c == digit_char((rest % 10) as nat));
            assert(decimal(rest as nat) == decimal((rest / 10) as nat) + low);
            assert(reversed@.push(c).reverse() =~= low + reversed@.reverse());
            assert(decimal((rest / 10) as nat) + (low + reversed@.reverse()) =~= (decimal(
                (rest / 10) as nat,
            ) + low) + reversed@.reverse());
        }
        reversed.push(c);
        rest = rest / 10;
    }
    let first: char = (48u8 + (rest as u8)) as char;
    let mut text = String::new();
    text.push(first);
    assert(text@ =~= decimal(rest as nat));
    let mut i: usize = reversed.len();
    while i > 0
        invariant
            i <= reversed@.len(),
            text@ == decimal(rest as nat) + reversed@.reverse().take(reversed@.len() - i),
        decreases i,
    {
        i = i - 1;
        let c = reversed[i];
        proof {
            let r = reversed@.reverse();
            let k = reversed@.len() - i - 1;
            assert(r[k] == c);
            assert(r.take(k + 1) =~= r.take(k).push(c));
            assert((decimal(rest as nat) + r.take(k)).push(c) =~= decimal(rest as nat) + r.take(
                k + 1,
            ));
        }
        text.push(c);
    }
    assert(reversed@.reverse().take(reversed@.len() as int) =~= reversed@.reverse());
    text
}

} // verus!
