//! Pitch-detector selection and the sample bookkeeping that every detector
//! shares: the analysis window size and the ring-buffer cursor that decides
//! when a new estimate is due.

use vstd::prelude::*;
use crate::counting::{is_pow2, next_power_of_two, wrap_iter, wrap_step, lemma_wrap_iter_from_zero};

verus! {

/// Algorithm selector, exposed as a host-facing parameter.
#[derive(Clone, Copy, Debug, PartialEq, Eq, Structural)]
pub enum PitchAlgorithm {
    /// Classic time-domain YIN.
    YinClassic,
    /// YIN with the difference function built from an FFT autocorrelation.
    YinFft,
    /// Harmonic product spectrum peak picking.
    FftPeak,
}

/// The algorithm that host port value `i` selects: 0 classic YIN, 2 FFT
/// peak, anything else FFT-based YIN.
pub open spec fn algorithm_for_port(i: int) -> PitchAlgorithm {
    if i == 0 {
        PitchAlgorithm::YinClassic
    } else if i == 2 {
        PitchAlgorithm::FftPeak
    } else {
        PitchAlgorithm::YinFft
    }
}

impl PitchAlgorithm {
    /// Host port value to algorithm: 0 classic YIN, 2 FFT peak. Anything
    /// else is FFT-based YIN, the default.
    pub fn from_int(i: i32) -> (a: Self)
        ensures
            a == algorithm_for_port(i as int),
            (a == PitchAlgorithm::YinClassic) == (i == 0),
            (a == PitchAlgorithm::FftPeak) == (i == 2),
            (a == PitchAlgorithm::YinFft) == (i != 0 && i != 2),
    {
        match i {
            0 => PitchAlgorithm::YinClassic,
            2 => PitchAlgorithm::FftPeak,
            _ => PitchAlgorithm::YinFft,
        }
    }
}

/// Analysis window of a detector whose longest period of interest is
/// `max_tau` samples: the smallest power of two that holds two periods.
pub fn analysis_window(max_tau: usize) -> (w: usize)
    requires
        max_tau <= (usize::MAX / 2 + 1) / 2,
    ensures
        is_pow2(w as int),
        w >= 2 * max_tau,
        w == 1 || w / 2 < 2 * max_tau,
{
    next_power_of_two(2 * max_tau)
}

/// Harmonics multiplied together in the harmonic product spectrum.
pub const HARMONICS: usize = 5;

/// The bin range that the harmonic product spectrum searches for a
/// fundamental, from the bins of the lowest and highest frequency of
/// interest: at least bin 2 at either end, and the top limited to
/// `(fft_size / 2) / HARMONICS` so that every harmonic of a candidate lies in
/// the one-sided spectrum.
pub fn hps_bin_range(min_hz_bin: usize, max_hz_bin: usize, fft_size: usize) -> (r: (usize, usize))
    ensures
        r.0 == (if min_hz_bin < 2 { 2 } else { min_hz_bin }),
        r.1 == (if max_hz_bin < (fft_size / 2) / HARMONICS {
            if max_hz_bin < 2 { 2 } else { max_hz_bin }
        } else {
            if (fft_size / 2) / HARMONICS < 2 { 2 } else { (fft_size / 2) / HARMONICS }
        }),
{
    let half = fft_size / 2;
    let top = if max_hz_bin < half / HARMONICS {
        max_hz_bin
    } else {
        half / HARMONICS
    };
    let max_bin = if top < 2 {
        2
    } else {
        top
    };
    let min_bin = if min_hz_bin < 2 {
        2
    } else {
        min_hz_bin
    };
    (min_bin, max_bin)
}

/// Highest candidate bin of a harmonic-product-spectrum estimate: the
/// search top, cut to `(fft_size / 2) / HARMONICS`. Every harmonic bin
/// `k * h` with `k` up to it and `h` up to `HARMONICS` lies within the
/// one-sided spectrum `0..=fft_size / 2`.
pub fn hps_upper_bin(max_bin: usize, fft_size: usize) -> (upper: usize)
    ensures
        upper == (if max_bin < (fft_size / 2) / HARMONICS {
            max_bin
        } else {
            (fft_size / 2) / HARMONICS
        }),
        forall|k: int, h: int|
            0 <= k <= upper && 1 <= h <= HARMONICS ==> #[trigger] (k * h) <= fft_size / 2,
{
    let half = fft_size / 2;
    let upper = if max_bin < half / HARMONICS {
        max_bin
    } else {
        half / HARMONICS
    };
    proof {
        assert forall|k: int, h: int| 0 <= k <= upper && 1 <= h <= HARMONICS implies #[trigger] (k
            * h) <= fft_size / 2 by {
            assert(k * h <= upper * 5) by (nonlinear_arith)
                requires
                    0 <= k <= upper,
                    1 <= h <= 5,
            ;
            assert(upper * 5 <= half) by (nonlinear_arith)
                requires
                    upper <= half / 5,
            ;
        }
    }
    upper
}

/// Write position in a detector's ring buffer, and the count of samples
/// since the last estimate.
pub struct RingCursor {
    window: usize,
    hop: usize,
    write_idx: usize,
    samples_since_hop: usize,
}

impl RingCursor {
    #[verifier::type_invariant]
    spec fn wf(self) -> bool {
        &&& self.window >= 1
        &&& self.hop >= 1
        &&& self.write_idx < self.window
        &&& self.samples_since_hop < self.hop
    }

    /// Number of slots in the ring.
    pub closed spec fn ring_len(self) -> nat {
        self.window as nat
    }

    /// Samples between estimates.
    pub closed spec fn hop_len(self) -> nat {
        self.hop as nat
    }

    /// The slot that the next sample goes to.
    pub closed spec fn slot(self) -> nat {
        self.write_idx as nat
    }

    /// Samples taken since the last estimate.
    pub closed spec fn phase(self) -> nat {
        self.samples_since_hop as nat
    }

    /// A cursor at slot 0 of a ring of `window` slots that asks for an
    /// estimate every `hop` samples (at least every sample).
    pub fn new(window: usize, hop: usize) -> (r: Self)
        requires
            window >= 1,
        ensures
            r.ring_len() == window,
            r.hop_len() == (if hop >= 1 { hop } else { 1 }),
            r.slot() == 0,
            r.phase() == 0,
    {
        RingCursor {
            window,
            hop: if hop >= 1 { hop } else { 1 },
            write_idx: 0,
            samples_since_hop: 0,
        }
    }

    /// Number of slots in the ring.
    pub fn window(&self) -> (w: usize)
        ensures
            w == self.ring_len(),
            w >= 1,
    {
        proof {
            use_type_invariant(self);
        }
        self.window
    }

    /// The slot that the next sample goes to; the slots from here on
    /// (wrapping) hold the window oldest first.
    pub fn write_idx(&self) -> (i: usize)
        ensures
            i == self.slot(),
            i < self.ring_len(),
    {
        proof {
            use_type_invariant(self);
        }
        self.write_idx
    }

    /// Takes one sample: returns the slot to store it in and whether an
    /// estimate is due now, then moves to the next slot.
    pub fn push(&mut self) -> (r: (usize, bool))
        ensures
            r.0 == old(self).slot(),
            r.0 < old(self).ring_len(),
            r.1 == (wrap_step(old(self).phase() as int, old(self).hop_len() as int) == 0),
            final(self).ring_len() == old(self).ring_len(),
            final(self).hop_len() == old(self).hop_len(),
            final(self).slot() == (old(self).slot() + 1) % old(self).ring_len(),
            final(self).phase() == wrap_step(old(self).phase() as int, old(self).hop_len() as int),
    {
        proof {
            use_type_invariant(&*self);
        }
        let slot = self.write_idx;
        let next = if self.write_idx + 1 < self.window {
            self.write_idx + 1
        } else {
            0
        };
        proof {
            if self.write_idx + 1 < self.window {
                vstd::arithmetic::div_mod::lemma_small_mod(
                    (self.write_idx + 1) as nat,
                    self.window as nat,
                );
            } else {
                vstd::arithmetic::div_mod::lemma_mod_self_0(self.window as int);
            }
        }
        let since = self.samples_since_hop + 1;
        let due = since >= self.hop;
        *self = RingCursor {
            window: self.window,
            hop: self.hop,
            write_idx: next,
            samples_since_hop: if due { 0 } else { since },
        };
        (slot, due)
    }
}

/// From a fresh cursor, the `k`-th sample (counting from 1) is the one that
/// makes an estimate due exactly when `k` is a multiple of the hop.
pub proof fn lemma_hop_schedule(hop: int, k: nat)
    requires
        hop >= 1,
        k >= 1,
    ensures
        (wrap_step(wrap_iter(0, hop, (k - 1) as nat), hop) == 0) == ((k as int) % hop == 0),
{
    lemma_wrap_iter_from_zero(hop, k);
    assert(wrap_iter(0, hop, k) == wrap_step(wrap_iter(0, hop, (k - 1) as nat), hop));
}

} // verus!
