//! Integer core of the autovocoder: musical scales and pitch quantization,
//! chord voicings and carrier layouts, the host-facing selector enums, and
//! the sample-counting state machines that the audio effects run on.

pub mod autovocoder;
pub mod chorus;
pub mod cli;
pub mod controls;
pub mod counting;
pub mod crusher;
pub mod pitch;
pub mod saturate;
pub mod scale;
pub mod tremolo;

pub use autovocoder::{CarrierMode, ChordVoicing};
pub use pitch::PitchAlgorithm;
pub use saturate::DriveMode;
pub use scale::Scale;
pub use tremolo::LfoTarget;
