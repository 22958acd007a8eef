//! Shared animation state: fixed-point color channels.
//!
//! Each channel holds a color intensity in `[0, 1)`, encoded as an integer
//! numerator over [`SCALE`]: a value `v` stands for the intensity
//! `v / SCALE`. One channel is advanced by one unit per rendered frame, the
//! other by the key code of each key-down event; both wrap modulo `1.0`,
//! which in this encoding is a wrap modulo [`SCALE`].

use vstd::arithmetic::div_mod::{
    lemma_add_mod_noop_right, lemma_mod_bound, lemma_small_mod,
};
use vstd::prelude::*;

verus! {

/// Denominator of the fixed-point intensity encoding: a channel value `v`
/// stands for the intensity `v / SCALE`, a number in `[0, 1)`.
pub const SCALE: u32 = 255;

/// One animation channel, owned by exactly one writer (the render loop or
/// the input listener). The stored numerator always stays below [`SCALE`].
pub struct Channel {
    value: u32,
}

impl View for Channel {
    type V = int;

    /// A channel is modeled by its numerator, an integer in `[0, SCALE)`.
    closed spec fn view(&self) -> int {
        self.value as int
    }
}

impl Channel {
    /// The channel invariant: the numerator encodes an intensity in `[0, 1)`.
    pub open spec fn wf(&self) -> bool {
        0 <= self@ < SCALE
    }

    /// A fresh channel starts at intensity zero.
    pub fn new() -> (c: Channel)
        ensures
            c.wf(),
            c@ == 0,
    {
        Channel { value: 0 }
    }

    /// Rebuild a channel from a stored numerator, wrapping it into range.
    /// The channels are published across threads as their bare numerators;
    /// this restores the channel a writer owns from the published value.
    pub fn from_value(v: u32) -> (c: Channel)
        ensures
            c.wf(),
            c@ == v as int % (SCALE as int),
    {
        let rem = v % SCALE;
        proof {
            lemma_mod_bound(v as int, SCALE as int);
        }
        Channel { value: rem }
    }

    /// Current numerator of the channel.
    pub fn get(&self) -> (v: u32)
        ensures
            v as int == self@,
    {
        self.value
    }

    /// Advance the channel by `delta` units, wrapping modulo [`SCALE`]:
    /// the fixed-point form of `f(x) = (x + d) mod 1.0`.
    pub fn advance(&mut self, delta: u32)
        requires
            old(self).wf(),
        ensures
            final(self).wf(),
            final(self)@ == (old(self)@ + delta) % (SCALE as int),
    {
        let sum: u64 = self.value as u64 + delta as u64;
        let rem: u64 = sum % (SCALE as u64);
        proof {
            lemma_mod_bound(sum as int, SCALE as int);
        }
        self.value = rem as u32;
    }

    /// Advance the channel `n` times by `delta`, as the render loop does once
    /// per frame; the result is a single wrap of `old + delta * n`.
    pub fn advance_many(&mut self, delta: u32, n: u32)
        requires
            old(self).wf(),
        ensures
            final(self).wf(),
            final(self)@ == (old(self)@ + delta * n) % (SCALE as int),
    {
        let mut i: u32 = 0;
        while i < n
            invariant
                0 <= i <= n,
                self.wf(),
                self@ == advanced(old(self)@, delta as int, i as nat),
            decreases n - i,
        {
            self.advance(delta);
            i = i + 1;
        }
        proof {
            lemma_advanced_is_single_wrap(old(self)@, delta as int, n as nat);
        }
    }
}

/// The numerator reached from `start` after `n` advances by `delta`, each
/// wrapping modulo [`SCALE`].
pub open spec fn advanced(start: int, delta: int, n: nat) -> int
    decreases n,
{
    if n == 0 {
        start
    } else {
        (advanced(start, delta, (n - 1) as nat) + delta) % (SCALE as int)
    }
}

/// Wrap law of the animation channels: advancing a channel `n` times by a
/// fixed non-negative increment `delta`, wrapping each time, lands exactly on
/// `(start + delta * n) mod SCALE` — the fixed-point reading of
/// `(initial + increment * N) mod 1.0`.
pub proof fn lemma_advanced_is_single_wrap(start: int, delta: int, n: nat)
    requires
        0 <= start < SCALE,
        0 <= delta,
    ensures
        advanced(start, delta, n) == (start + delta * n) % (SCALE as int),
    decreases n,
{
    let m = SCALE as int;
    if n == 0 {
        lemma_small_mod(start as nat, SCALE as nat);
    } else {
        lemma_advanced_is_single_wrap(start, delta, (n - 1) as nat);
        assert(delta * n == delta * (n - 1) + delta) by (nonlinear_arith);
        lemma_add_mod_noop_right(delta, start + delta * (n - 1), m);
        assert((delta + (start + delta * (n - 1)) % m) % m == (delta + (start + delta * (n - 1))) % m);
    }
}

} // verus!
