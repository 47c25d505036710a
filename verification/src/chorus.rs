//! Delay-line positions of the chorus: buffer size, write position and the
//! two read positions of a fractional-delay tap.

use vstd::prelude::*;
use crate::counting::{is_pow2, next_power_of_two};

verus! {

/// Write position in a power-of-two delay line of at least two slots.
pub struct DelayCursor {
    len: usize,
    write_idx: usize,
}

impl DelayCursor {
    #[verifier::type_invariant]
    spec fn wf(self) -> bool {
        &&& 2 <= self.len <= usize::MAX / 2
        &&& self.write_idx < self.len
    }

    /// Number of slots.
    pub closed spec fn buf_len(self) -> nat {
        self.len as nat
    }

    /// The slot that the next sample is written to.
    pub closed spec fn slot(self) -> nat {
        self.write_idx as nat
    }

    /// A delay line of the smallest power of two (at least 2) that holds
    /// `min_len` samples, writing at slot 0.
    pub fn new(min_len: usize) -> (c: Self)
        requires
            min_len <= usize::MAX / 4,
        ensures
            is_pow2(c.buf_len() as int),
            c.buf_len() >= min_len,
            c.buf_len() >= 2,
            c.buf_len() == 2 || c.buf_len() / 2 < min_len,
            c.slot() == 0,
    {
        let p = next_power_of_two(min_len);
        let len = if p < 2 {
            2
        } else {
            p
        };
        proof {
            if p >= 2 {
                assert(p < 2 * min_len);
            }
            assert(is_pow2(1));
            assert(is_pow2(2));
        }
        DelayCursor { len, write_idx: 0 }
    }

    /// Number of slots.
    pub fn len(&self) -> (n: usize)
        ensures
            n == self.buf_len(),
            n >= 2,
    {
        proof {
            use_type_invariant(self);
        }
        self.len
    }

    /// The slot that the next sample is written to.
    pub fn write_idx(&self) -> (i: usize)
        ensures
            i == self.slot(),
            i < self.buf_len(),
    {
        proof {
            use_type_invariant(self);
        }
        self.write_idx
    }

    /// Moves the write position to the next slot, wrapping at the end.
    pub fn advance(&mut self)
        ensures
            final(self).buf_len() == old(self).buf_len(),
            final(self).slot() == (old(self).slot() + 1) % old(self).buf_len(),
    {
        proof {
            use_type_invariant(&*self);
            if self.write_idx + 1 < self.len {
                vstd::arithmetic::div_mod::lemma_small_mod(
                    (self.write_idx + 1) as nat,
                    self.len as nat,
                );
            } else {
                vstd::arithmetic::div_mod::lemma_mod_self_0(self.len as int);
            }
        }
        self.write_idx = if self.write_idx + 1 < self.len {
            self.write_idx + 1
        } else {
            0
        };
    }

    /// Writes start again at slot 0.
    pub fn reset(&mut self)
        ensures
            final(self).buf_len() == old(self).buf_len(),
            final(self).slot() == 0,
    {
        proof {
            use_type_invariant(&*self);
        }
        self.write_idx = 0;
    }

    /// The two slots that a tap `delay` whole samples behind the write
    /// position reads: the slot `delay` back and the one before it, both
    /// taken around the ring.
    pub fn taps(&self, delay: usize) -> (r: (usize, usize))
        requires
            delay <= self.slot() + self.buf_len(),
        ensures
            r.0 == (self.slot() - delay) % (self.buf_len() as int),
            r.1 == (self.slot() - delay - 1) % (self.buf_len() as int),
            r.0 < self.buf_len(),
            r.1 < self.buf_len(),
    {
        proof {
            use_type_invariant(self);
        }
        let len = self.len;
        let base = (self.write_idx + len - delay) % len;
        let prev = (base + len - 1) % len;
        proof {
            let l = len as int;
            let s = self.write_idx as int - delay as int;
            vstd::arithmetic::div_mod::lemma_mod_add_multiples_vanish(s, l);
            assert(base as int == s % l);
            vstd::arithmetic::div_mod::lemma_small_mod((l - 1) as nat, l as nat);
            vstd::arithmetic::div_mod::lemma_add_mod_noop(s, l - 1, l);
            vstd::arithmetic::div_mod::lemma_mod_add_multiples_vanish(s - 1, l);
            assert(prev as int == (s - 1) % l);
        }
        (base, prev)
    }
}

} // verus!
