//! The deterministic generator: a two-word xorshift recurrence whose draws
//! are produced in batches of 64 and handed out in reverse generation order.
//!
//! A draw is the high 52 bits of a state word, a fixed-point number with 52
//! fractional bits: the drawn quantity in [0,1) is `draw / FRAC_ONE`. The
//! external system turns the same 52 bits into an IEEE-754 double in [0,1);
//! that conversion is exact, so reasoning over the integer draws reasons over
//! the doubles bit for bit.

use vstd::prelude::*;

verus! {

/// 1.0 in the generator's fixed-point scale: 2^52.
pub const FRAC_ONE: u64 = 0x10_0000_0000_0000;

/// Draws are produced in batches of this many raw transforms.
pub const BATCH: usize = 64;

/// One application of the two-word transform: the new second word computed
/// from the old pair. The new first word is the old second word.
pub open spec fn mix(s0: u64, s1: u64) -> u64 {
    let a = s0 ^ (s0 << 23u64);
    let b = a ^ (a >> 17u64);
    (b ^ s1) ^ (s1 >> 26u64)
}

/// The state pair after `n` transforms from `(s0, s1)`.
pub open spec fn state_after(s0: u64, s1: u64, n: nat) -> (u64, u64)
    decreases n,
{
    if n == 0 {
        (s0, s1)
    } else {
        let prev = state_after(s0, s1, (n - 1) as nat);
        (prev.1, mix(prev.0, prev.1))
    }
}

/// The `k`-th raw draw (0-indexed) generated from `(s0, s1)`: after the
/// `k+1`-th transform, the high 52 bits of the first state word.
pub open spec fn raw_draw(s0: u64, s1: u64, k: nat) -> u64 {
    state_after(s0, s1, k + 1).0 >> 12u64
}

/// The raw draws of one full batch from `(s0, s1)`, in generation order.
pub open spec fn batch_draws(s0: u64, s1: u64) -> Seq<u64> {
    Seq::new(BATCH as nat, |i: int| raw_draw(s0, s1, i as nat))
}

/// Abstract state of a generator: the two state words and the buffered
/// draws still to be handed out (consumed from the back).
#[verifier::ext_equal]
pub struct RngState {
    pub s0: u64,
    pub s1: u64,
    pub cache: Seq<u64>,
}

/// Every buffered draw fits in 52 bits, and the buffer never exceeds a batch.
pub open spec fn rng_inv(v: RngState) -> bool {
    &&& v.cache.len() <= BATCH
    &&& forall|i: int| 0 <= i < v.cache.len() ==> v.cache[i] < FRAC_ONE
}

/// The value the next call to `next` returns: the most recently generated
/// buffered draw, or, from an empty buffer, the last draw of a fresh batch.
pub open spec fn peek(v: RngState) -> u64 {
    if v.cache.len() > 0 {
        v.cache.last()
    } else {
        raw_draw(v.s0, v.s1, (BATCH - 1) as nat)
    }
}

/// The generator's state after one draw is consumed.
pub open spec fn step(v: RngState) -> RngState {
    if v.cache.len() > 0 {
        RngState { cache: v.cache.drop_last(), ..v }
    } else {
        let s = state_after(v.s0, v.s1, BATCH as nat);
        RngState { s0: s.0, s1: s.1, cache: batch_draws(v.s0, v.s1).drop_last() }
    }
}

/// The generator's state after `n` draws are consumed.
pub open spec fn forward(v: RngState, n: nat) -> RngState
    decreases n,
{
    if n == 0 {
        v
    } else {
        step(forward(v, (n - 1) as nat))
    }
}

/// The `k`-th value (0-indexed) of the stream of draws from state `v`.
pub open spec fn draw(v: RngState, k: nat) -> u64 {
    peek(forward(v, k))
}

/// The seeded deterministic generator.
#[derive(Debug)]
pub struct Rng {
    pub s0: u64,
    pub s1: u64,
    pub cache: Vec<u64>,
}

impl View for Rng {
    type V = RngState;

    open spec fn view(&self) -> RngState {
        RngState { s0: self.s0, s1: self.s1, cache: self.cache@ }
    }
}

proof fn lemma_raw_draw_bounded(s0: u64, s1: u64, k: nat)
    ensures
        raw_draw(s0, s1, k) < FRAC_ONE,
{
    let w = state_after(s0, s1, k + 1).0;
    assert(w >> 12u64 < 0x10_0000_0000_0000u64) by (bit_vector);
}

/// Consuming a draw preserves the generator invariant.
proof fn lemma_step_inv(v: RngState)
    requires
        rng_inv(v),
    ensures
        rng_inv(step(v)),
{
    if v.cache.len() == 0 {
        assert forall|i: int| 0 <= i < batch_draws(v.s0, v.s1).drop_last().len() implies
            batch_draws(v.s0, v.s1).drop_last()[i] < FRAC_ONE by {
            lemma_raw_draw_bounded(v.s0, v.s1, i as nat);
        }
    }
}

/// Law: every draw of the stream lies in [0,1) — strictly below `FRAC_ONE`
/// (one full unit), whatever the seed and however many draws came before.
pub proof fn lemma_draws_in_range(v: RngState, k: nat)
    requires
        rng_inv(v),
    ensures
        draw(v, k) < FRAC_ONE,
        rng_inv(forward(v, k)),
    decreases k,
{
    if k == 0 {
        if v.cache.len() == 0 {
            lemma_raw_draw_bounded(v.s0, v.s1, (BATCH - 1) as nat);
        }
    } else {
        lemma_draws_in_range(v, (k - 1) as nat);
        lemma_step_inv(forward(v, (k - 1) as nat));
        let f = forward(v, k);
        if f.cache.len() == 0 {
            lemma_raw_draw_bounded(f.s0, f.s1, (BATCH - 1) as nat);
        }
    }
}

impl Rng {
    /// A fresh generator from a two-word seed, with an empty buffer.
    pub fn new(s0: u64, s1: u64) -> (r: Self)
        ensures
            r@ == (RngState { s0, s1, cache: Seq::<u64>::empty() }),
            rng_inv(r@),
    {
        let r = Rng { s0, s1, cache: Vec::new() };
        proof {
            assert(r@ =~= RngState { s0, s1, cache: Seq::<u64>::empty() });
        }
        r
    }

    /// One transform of the state pair; the buffer is untouched.
    fn step_raw(&mut self)
        ensures
            final(self).s0 == old(self).s1,
            final(self).s1 == mix(old(self).s0, old(self).s1),
            final(self).cache == old(self).cache,
    {
        let mut s1 = self.s0;
        let s0 = self.s1;
        s1 = s1 ^ (s1 << 23);
        s1 = s1 ^ (s1 >> 17);
        s1 = s1 ^ s0;
        s1 = s1 ^ (s0 >> 26);
        self.s0 = self.s1;
        self.s1 = s1;
    }

    /// Transform once and emit the high 52 bits of the first state word.
    fn next_raw(&mut self) -> (r: u64)
        ensures
            final(self).s0 == old(self).s1,
            final(self).s1 == mix(old(self).s0, old(self).s1),
            final(self).cache == old(self).cache,
            r == old(self).s1 >> 12u64,
    {
        self.step_raw();
        self.s0 >> 12
    }

    /// Refill an empty buffer with one full batch, in generation order.
    fn refill_cache(&mut self)
        requires
            old(self).cache@.len() == 0,
        ensures
            final(self).s0 == state_after(old(self).s0, old(self).s1, BATCH as nat).0,
            final(self).s1 == state_after(old(self).s0, old(self).s1, BATCH as nat).1,
            final(self).cache@ == batch_draws(old(self).s0, old(self).s1),
    {
        let ghost os0 = self.s0;
        let ghost os1 = self.s1;
        while self.cache.len() < BATCH
            invariant
                self.cache@.len() <= BATCH,
                self.s0 == state_after(os0, os1, self.cache@.len() as nat).0,
                self.s1 == state_after(os0, os1, self.cache@.len() as nat).1,
                forall|i: int| 0 <= i < self.cache@.len() ==> self.cache@[i] == raw_draw(os0, os1, i as nat),
            decreases BATCH - self.cache.len(),
        {
            let ghost n = self.cache@.len() as nat;
            let r = self.next_raw();
            proof {
                // one unfolding: the state pair after n+1 transforms, and with
                // it the n-th draw of the stream
                assert(state_after(os0, os1, n + 1)
                    == (state_after(os0, os1, n).1,
                        mix(state_after(os0, os1, n).0, state_after(os0, os1, n).1)));
                assert(raw_draw(os0, os1, n) == state_after(os0, os1, n).1 >> 12u64);
            }
            self.cache.push(r);
        }
        proof {
            assert(self.cache@ =~= batch_draws(os0, os1));
        }
    }

    /// The sole entry point: one draw, below `FRAC_ONE`, consumed from the
    /// back of the buffer; an empty buffer is refilled first.
    pub fn next(&mut self) -> (r: u64)
        requires
            rng_inv(old(self)@),
        ensures
            r == peek(old(self)@),
            final(self)@ == step(old(self)@),
            rng_inv(final(self)@),
            r < FRAC_ONE,
    {
        if self.cache.len() == 0 {
            self.refill_cache();
            proof {
                assert(batch_draws(old(self).s0, old(self).s1).last()
                    == raw_draw(old(self).s0, old(self).s1, (BATCH - 1) as nat));
            }
        }
        let r = self.cache.pop().unwrap();
        proof {
            lemma_step_inv(old(self)@);
            assert(self@ =~= step(old(self)@));
            if old(self)@.cache.len() == 0 {
                lemma_raw_draw_bounded(old(self).s0, old(self).s1, (BATCH - 1) as nat);
            }
        }
        r
    }

    /// An independent copy: same state words, same buffered draws.
    pub fn duplicate(&self) -> (r: Self)
        ensures
            r@ == self@,
    {
        let mut cache: Vec<u64> = Vec::new();
        let mut i: usize = 0;
        while i < self.cache.len()
            invariant
                i <= self.cache@.len(),
                cache@ == self.cache@.take(i as int),
            decreases self.cache@.len() - i,
        {
            cache.push(self.cache[i]);
            proof {
                assert(cache@ =~= self.cache@.take(i + 1));
            }
            i = i + 1;
        }
        let r = Rng { s0: self.s0, s1: self.s1, cache };
        proof {
            assert(r.cache@ =~= self.cache@);
            assert(r@ =~= self@);
        }
        r
    }
}

} // verus!
