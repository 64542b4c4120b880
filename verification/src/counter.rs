//! The counter that makes successive identifiers differ.

use vstd::prelude::*;

verus! {

/// The value that follows `value`: one more, and zero after the largest.
pub open spec fn next_value(value: u64) -> u64 {
    if value == u64::MAX {
        0
    } else {
        (value + 1) as u64
    }
}

/// The value reached from `start` after `steps` increments.
pub open spec fn advanced(start: u64, steps: nat) -> u64 {
    ((start + steps) % 0x1_0000_0000_0000_0000) as u64
}

/// A 64-bit counter that only moves forward and wraps after `u64::MAX`.
/// One instance serves a whole process; exclusive access to it makes every
/// increment atomic.
#[derive(Debug)]
pub struct Counter {
    value: u64,
}

impl View for Counter {
    type V = u64;

    closed spec fn view(&self) -> u64 {
        self.value
    }
}

impl Counter {
    /// A counter at zero.
    pub fn new() -> (counter: Counter)
        ensures
            counter@ == 0,
    {
        Counter { value: 0 }
    }

    /// A counter at `value`.
    pub fn starting_at(value: u64) -> (counter: Counter)
        ensures
            counter@ == value,
    {
        Counter { value }
    }

    /// The value that the next increment will hand out.
    pub fn current(&self) -> (value: u64)
        ensures
            value == self@,
    {
        self.value
    }

    /// Hands out the current value and moves the counter one step forward.
    pub fn fetch_increment(&mut self) -> (seen: u64)
        ensures
            seen == old(self)@,
            final(self)@ == next_value(old(self)@),
    {
        let seen = self.value;
        self.value = seen.wrapping_add(1);
        seen
    }
}

/// One increment is one step.
pub proof fn lemma_next_is_one_step(start: u64, steps: nat)
    ensures
        advanced(start, 0) == start,
        next_value(advanced(start, steps)) == advanced(start, steps + 1),
{
}

/// Two increments fewer than 2^64 steps apart never hand out the same value.
pub proof fn lemma_increments_differ(start: u64, first: nat, second: nat)
    requires
        first < second,
        second - first < 0x1_0000_0000_0000_0000,
    ensures
        advanced(start, first) != advanced(start, second),
{
    let m = 0x1_0000_0000_0000_0000int;
    let a = start + first;
    let b = start + second;
    if a % m == b % m {
        assert(a == m * (a / m) + a % m) by (nonlinear_arith)
            requires
                m > 0,
        ;
        assert(b == m * (b / m) + b % m) by (nonlinear_arith)
            requires
                m > 0,
        ;
        let q = b / m - a / m;
        assert(b - a == m * q) by (nonlinear_arith)
            requires
                a == m * (a / m) + a % m,
                b == m * (b / m) + b % m,
                a % m == b % m,
                q == b / m - a / m,
        ;
        assert(false) by (nonlinear_arith)
            requires
                0 < b - a < m,
                b - a == m * q,
        ;
    }
}

} // verus!
