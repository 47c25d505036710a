//! Destinations of the modulation LFO.

use vstd::prelude::*;

verus! {

/// Where the LFO value is applied.
#[derive(Clone, Copy, Debug, PartialEq, Eq, Structural)]
pub enum LfoTarget {
    /// Classic tremolo on the output level.
    Amplitude,
    /// Vibrato on the carrier root frequency.
    Pitch,
    /// Sweeps between voice and vocoded mix.
    DryWet,
    /// Modulates the carrier level fed to the vocoder.
    CarrierLevel,
}

/// The target that host port value `i` selects: 1 pitch, 2 dry/wet,
/// 3 carrier level, anything else amplitude.
pub open spec fn target_for_port(i: int) -> LfoTarget {
    if i == 1 {
        LfoTarget::Pitch
    } else if i == 2 {
        LfoTarget::DryWet
    } else if i == 3 {
        LfoTarget::CarrierLevel
    } else {
        LfoTarget::Amplitude
    }
}

impl LfoTarget {
    /// Host port value to target: 1 pitch, 2 dry/wet, 3 carrier level.
    /// Anything else is amplitude, the classic tremolo.
    pub fn from_int(i: i32) -> (t: Self)
        ensures
            t == target_for_port(i as int),
            (t == LfoTarget::Pitch) == (i == 1),
            (t == LfoTarget::DryWet) == (i == 2),
            (t == LfoTarget::CarrierLevel) == (i == 3),
            (t == LfoTarget::Amplitude) == (i != 1 && i != 2 && i != 3),
    {
        match i {
            1 => LfoTarget::Pitch,
            2 => LfoTarget::DryWet,
            3 => LfoTarget::CarrierLevel,
            _ => LfoTarget::Amplitude,
        }
    }
}

} // verus!
