//! A counter that wraps around modulo a fixed positive bound.
use vstd::prelude::*;
use vstd::arithmetic::div_mod::lemma_mod_bound;

verus! {

/// `value + delta` reduced into `[0, modulus)` with a floored (Euclidean)
/// remainder, so that a negative sum wraps to the top of the range.
pub open spec fn wrapped(value: int, delta: int, modulus: int) -> int {
    (value + delta) % modulus
}

/// An integer in `[0, max_value)` that wraps around when moved past either end.
#[derive(Clone, Debug, PartialEq)]
pub struct LoopValue {
    value: i32,
    max_value: i32,
}

impl LoopValue {
    /// The value held.
    pub closed spec fn current(self) -> int {
        self.value as int
    }

    /// The bound that the value wraps at.
    pub closed spec fn modulus(self) -> int {
        self.max_value as int
    }

    /// The value lies in `[0, modulus)` and the modulus is a positive `i32`.
    pub open spec fn wf(self) -> bool {
        &&& 0 < self.modulus() <= i32::MAX
        &&& 0 <= self.current() < self.modulus()
    }

    /// Makes a counter holding `value` that wraps at `max_value`.
    pub fn new(value: i32, max_value: i32) -> (r: LoopValue)
        requires
            0 <= value < max_value,
        ensures
            r.current() == value,
            r.modulus() == max_value,
            r.wf(),
    {
        LoopValue { value, max_value }
    }

    /// The value held, as a signed integer.
    pub fn value(&self) -> (r: i32)
        ensures
            r == self.current(),
    {
        self.value
    }

    /// The value held, as an index into a row or column.
    pub fn to_index(&self) -> (r: usize)
        requires
            self.wf(),
        ensures
            r == self.current(),
    {
        self.value as usize
    }

    /// Moves the value by `delta`, wrapping around modulo the bound.
    pub fn advance(&mut self, delta: i32)
        requires
            old(self).wf(),
        ensures
            final(self).modulus() == old(self).modulus(),
            final(self).current() == wrapped(old(self).current(), delta as int, old(self).modulus()),
            final(self).wf(),
    {
        let sum: i64 = self.value as i64 + delta as i64;
        let modulus: i64 = self.max_value as i64;
        proof {
            lemma_mod_bound(sum as int, modulus as int);
        }
        let r: i64 = sum.checked_rem_euclid(modulus).unwrap();
        self.value = r as i32;
    }
}

} // verus!
