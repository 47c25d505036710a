//! Sample-and-hold pacing and bit-depth ladder of the bit crusher.
//!
//! The crusher keeps a held output sample and refreshes it only every
//! `hold_samples` inputs; on a refresh the input is quantized to a ladder of
//! `levels()` steps per unit. This module owns the counting; the sample
//! arithmetic lives with the audio code.

use vstd::prelude::*;
use vstd::arithmetic::power2::pow2;
use crate::counting::{wrap_iter, wrap_step, lemma_wrap_iter_from_zero};

verus! {

/// Largest sample-and-hold period.
pub const MAX_HOLD_SAMPLES: u32 = 32;

/// `x` clamped to `[lo, hi]`.
pub open spec fn clamp_int(x: int, lo: int, hi: int) -> int {
    if x < lo {
        lo
    } else if x > hi {
        hi
    } else {
        x
    }
}

/// Enable switch, bit depth, hold period and hold counter of a bit crusher.
pub struct CrushControl {
    enabled: bool,
    bits: u32,
    hold_samples: u32,
    counter: u32,
}

impl CrushControl {
    #[verifier::type_invariant]
    spec fn wf(self) -> bool {
        &&& 1 <= self.bits <= 16
        &&& 1 <= self.hold_samples <= MAX_HOLD_SAMPLES
        &&& self.counter < MAX_HOLD_SAMPLES
    }

    /// Whether the crusher is engaged.
    pub closed spec fn is_on(self) -> bool {
        self.enabled
    }

    /// Effective bit depth, 1..=16.
    pub closed spec fn bit_depth(self) -> nat {
        self.bits as nat
    }

    /// Inputs per held sample, 1..=32.
    pub closed spec fn hold_len(self) -> nat {
        self.hold_samples as nat
    }

    /// Inputs taken since the held sample was last refreshed.
    pub closed spec fn count(self) -> nat {
        self.counter as nat
    }

    /// Disengaged, 16 bits, no rate reduction, counter at 0.
    pub fn new() -> (c: Self)
        ensures
            !c.is_on(),
            c.bit_depth() == 16,
            c.hold_len() == 1,
            c.count() == 0,
    {
        CrushControl { enabled: false, bits: 16, hold_samples: 1, counter: 0 }
    }

    /// Engages or disengages the crusher. Engaging a disengaged crusher
    /// restarts the hold counter and returns `true`: the caller then clears
    /// the held sample too.
    pub fn set_enabled(&mut self, on: bool) -> (restarted: bool)
        ensures
            restarted == (on && !old(self).is_on()),
            final(self).is_on() == on,
            final(self).count() == (if restarted { 0 } else { old(self).count() }),
            final(self).bit_depth() == old(self).bit_depth(),
            final(self).hold_len() == old(self).hold_len(),
    {
        proof {
            use_type_invariant(&*self);
        }
        let restarted = on && !self.enabled;
        if restarted {
            self.reset();
        }
        self.enabled = on;
        restarted
    }

    /// Whether the crusher is engaged.
    pub fn enabled(&self) -> (r: bool)
        ensures
            r == self.is_on(),
    {
        self.enabled
    }

    /// Sets the bit depth, clamped to 1..=16.
    pub fn set_bits(&mut self, bits: u32)
        ensures
            final(self).bit_depth() == clamp_int(bits as int, 1, 16),
            final(self).is_on() == old(self).is_on(),
            final(self).hold_len() == old(self).hold_len(),
            final(self).count() == old(self).count(),
    {
        proof {
            use_type_invariant(&*self);
        }
        self.bits = if bits < 1 {
            1
        } else if bits > 16 {
            16
        } else {
            bits
        };
    }

    /// Sets the number of inputs per held sample, clamped to 1..=32.
    pub fn set_hold_samples(&mut self, hold: u32)
        ensures
            final(self).hold_len() == clamp_int(hold as int, 1, MAX_HOLD_SAMPLES as int),
            final(self).is_on() == old(self).is_on(),
            final(self).bit_depth() == old(self).bit_depth(),
            final(self).count() == old(self).count(),
    {
        proof {
            use_type_invariant(&*self);
        }
        self.hold_samples = if hold < 1 {
            1
        } else if hold > MAX_HOLD_SAMPLES {
            MAX_HOLD_SAMPLES
        } else {
            hold
        };
    }

    /// Restarts the hold counter, so the next input is taken fresh.
    pub fn reset(&mut self)
        ensures
            final(self).count() == 0,
            final(self).is_on() == old(self).is_on(),
            final(self).bit_depth() == old(self).bit_depth(),
            final(self).hold_len() == old(self).hold_len(),
    {
        proof {
            use_type_invariant(&*self);
        }
        self.counter = 0;
    }

    /// Quantization steps per unit of amplitude on a two's-complement
    /// style ladder: 2^(bits - 1), so 16 bits give a 16-bit ladder.
    pub fn levels(&self) -> (n: u32)
        ensures
            n == pow2((self.bit_depth() - 1) as nat),
            1 <= self.bit_depth() <= 16,
    {
        proof {
            use_type_invariant(self);
        }
        let k = self.bits - 1;
        proof {
            vstd::bits::lemma_u32_pow2_no_overflow(k as nat);
            vstd::bits::lemma_u32_shl_is_mul(1, k);
        }
        1u32 << k
    }

    /// Takes one input: returns whether the held sample is refreshed from it
    /// (when the counter is at 0), then advances the counter, which wraps to
    /// 0 once it reaches the hold period.
    pub fn tick(&mut self) -> (fresh: bool)
        ensures
            fresh == (old(self).count() == 0),
            final(self).count() == wrap_step(old(self).count() as int, old(self).hold_len() as int),
            final(self).is_on() == old(self).is_on(),
            final(self).bit_depth() == old(self).bit_depth(),
            final(self).hold_len() == old(self).hold_len(),
    {
        proof {
            use_type_invariant(&*self);
        }
        let fresh = self.counter == 0;
        let next = self.counter + 1;
        self.counter = if next >= self.hold_samples {
            0
        } else {
            next
        };
        fresh
    }
}

/// After a reset, with a fixed hold period, input `n` (counting from 0) is
/// the one that refreshes the held sample exactly when `n` is a multiple of
/// the period: each fresh sample is held for `hold` inputs.
pub proof fn lemma_hold_pattern(hold: int, n: nat)
    requires
        hold >= 1,
    ensures
        (wrap_iter(0, hold, n) == 0) == ((n as int) % hold == 0),
{
    lemma_wrap_iter_from_zero(hold, n);
}

} // verus!
