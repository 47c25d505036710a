//! Saturator drive modes.

use vstd::prelude::*;

verus! {

/// Waveshaping character of the saturator.
#[derive(Clone, Copy, Debug, PartialEq, Eq, Structural)]
pub enum DriveMode {
    /// Moderate drive with an asymmetric bias: even harmonics, warm.
    Tube,
    /// Symmetric soft clip: odd harmonics, smooth.
    Tape,
    /// Very hot symmetric clip: a smoothed hard clipper.
    Fuzz,
}

/// The mode that host port value `i` selects: 0 tube, 2 fuzz, anything
/// else tape.
pub open spec fn drive_mode_for_port(i: int) -> DriveMode {
    if i == 0 {
        DriveMode::Tube
    } else if i == 2 {
        DriveMode::Fuzz
    } else {
        DriveMode::Tape
    }
}

impl DriveMode {
    /// Host port value to mode: 0 tube, 2 fuzz. Anything else is tape, the
    /// most neutral.
    pub fn from_int(i: i32) -> (m: Self)
        ensures
            m == drive_mode_for_port(i as int),
            (m == DriveMode::Tube) == (i == 0),
            (m == DriveMode::Fuzz) == (i == 2),
            (m == DriveMode::Tape) == (i != 0 && i != 2),
    {
        match i {
            0 => DriveMode::Tube,
            2 => DriveMode::Fuzz,
            _ => DriveMode::Tape,
        }
    }
}

} // verus!
