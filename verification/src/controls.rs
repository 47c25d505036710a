//! Integer control ports of a plugin host: remembering what each port last
//! held and turning a run's readings into the settings that changed.
//!
//! Each run the host's port values are read (a port the host left
//! unconnected reads as `None`) and compared against the last values seen;
//! only settings whose ports changed are pushed into the processor, which
//! keeps the audio thread free of needless recomputation.

use vstd::prelude::*;
use crate::autovocoder::{CarrierMode, ChordVoicing, voicing_for_port, voicing_index};
use crate::pitch::{PitchAlgorithm, algorithm_for_port};
use crate::saturate::{DriveMode, drive_mode_for_port};
use crate::scale::{Scale, kind_classes};
use crate::tremolo::{LfoTarget, target_for_port};

verus! {

/// What a port reads this run: its value when connected; otherwise the last
/// value seen, so an unconnected port never changes a setting.
pub open spec fn port_value(r: Option<i32>, last: i32) -> i32 {
    match r {
        Some(v) => v,
        None => last,
    }
}

/// The carrier mode that the mode, fixed-note and chord ports select.
pub open spec fn carrier_for_ports(mode: i32, fixed_note: i32, chord: i32) -> CarrierMode {
    let voicing = voicing_for_port(chord as int);
    let midi: u8 = if fixed_note < 0 {
        0u8
    } else if fixed_note > 127 {
        127u8
    } else {
        fixed_note as u8
    };
    if mode == 1 {
        CarrierMode::Chord(voicing)
    } else if mode == 2 {
        CarrierMode::Fixed { midi }
    } else if mode == 3 {
        CarrierMode::FixedChord { midi, voicing }
    } else {
        CarrierMode::Mono
    }
}

/// The carrier mode for port values: 1 a tracking chord, 2 a fixed note,
/// 3 a fixed chord, anything else a tracking single saw. The fixed note is
/// clamped to MIDI 0..=127 and the chord is read as `ChordVoicing::from_int`.
pub fn carrier_mode_from_ports(mode: i32, fixed_note: i32, chord: i32) -> (m: CarrierMode)
    ensures
        m == carrier_for_ports(mode, fixed_note, chord),
        mode == 1 ==> (m matches CarrierMode::Chord(v) && (0 <= chord < 15 ==> voicing_index(v)
            == chord) && (!(0 <= chord < 15) ==> v == ChordVoicing::Major)),
        mode == 2 ==> (m matches CarrierMode::Fixed { midi } && (0 <= fixed_note <= 127 ==> midi
            == fixed_note) && (fixed_note < 0 ==> midi == 0) && (fixed_note > 127 ==> midi == 127)),
        mode == 3 ==> (m matches CarrierMode::FixedChord { midi, voicing } && (0 <= fixed_note
            <= 127 ==> midi == fixed_note) && (fixed_note < 0 ==> midi == 0) && (fixed_note > 127
            ==> midi == 127) && (0 <= chord < 15 ==> voicing_index(voicing) == chord) && (!(0
            <= chord < 15) ==> voicing == ChordVoicing::Major)),
        !(1 <= mode <= 3) ==> m == CarrierMode::Mono,
{
    let voicing = ChordVoicing::from_int(chord);
    let midi: u8 = if fixed_note < 0 {
        0
    } else if fixed_note > 127 {
        127
    } else {
        fixed_note as u8
    };
    match mode {
        1 => CarrierMode::Chord(voicing),
        2 => CarrierMode::Fixed { midi },
        3 => CarrierMode::FixedChord { midi, voicing },
        _ => CarrierMode::Mono,
    }
}

/// The scale for port values: kind as in `Scale::from_int`, rooted at the
/// root port's value modulo 12 (negative roots wrap round, so -1 is B).
pub fn scale_from_ports(kind: i32, root: i32) -> (s: Scale)
    ensures
        s.classes() == kind_classes(kind as int, (root as int) % 12),
{
    let pc: u8 = if root >= 0 {
        (root % 12) as u8
    } else {
        let a: i64 = (-(root as i64)) % 12;
        proof {
            let q = (-(root as int)) / 12;
            vstd::arithmetic::div_mod::lemma_fundamental_div_mod(-(root as int), 12);
            if a != 0 {
                vstd::arithmetic::div_mod::lemma_fundamental_div_mod_converse(
                    root as int,
                    12,
                    -q - 1,
                    12 - a,
                );
            } else {
                vstd::arithmetic::div_mod::lemma_fundamental_div_mod_converse(
                    root as int,
                    12,
                    -q,
                    0,
                );
            }
        }
        if a == 0 {
            0
        } else {
            (12 - a) as u8
        }
    };
    Scale::from_int(kind, pc)
}

/// Values of the integer ports for one run; `None` for a port the host left
/// unconnected.
#[derive(Clone, Copy, Debug, PartialEq, Eq, Structural)]
pub struct PortReadings {
    /// Reading of the carrier mode (0 mono, 1 chord, 2 fixed, 3 fixed chord) port.
    pub mode: Option<i32>,
    /// Reading of the fixed MIDI note of the fixed modes port.
    pub fixed_note: Option<i32>,
    /// Reading of the scale kind (see `Scale::from_int`) port.
    pub scale_kind: Option<i32>,
    /// Reading of the scale root pitch class port.
    pub scale_root: Option<i32>,
    /// Reading of the chord voicing (see `ChordVoicing::from_int`) port.
    pub chord_type: Option<i32>,
    /// Reading of the compressor switch port.
    pub comp_on: Option<i32>,
    /// Reading of the pitch algorithm (see `PitchAlgorithm::from_int`) port.
    pub pitch_algo: Option<i32>,
    /// Reading of the carrier chorus switch port.
    pub carrier_chorus_on: Option<i32>,
    /// Reading of the output chorus switch port.
    pub output_chorus_on: Option<i32>,
    /// Reading of the LFO switch port.
    pub trem_on: Option<i32>,
    /// Reading of the LFO target (see `LfoTarget::from_int`) port.
    pub trem_target: Option<i32>,
    /// Reading of the pre-vocoder saturation switch port.
    pub pre_drive_on: Option<i32>,
    /// Reading of the output saturation switch port.
    pub post_drive_on: Option<i32>,
    /// Reading of the saturation mode (see `DriveMode::from_int`) port.
    pub drive_mode: Option<i32>,
    /// Reading of the bit crusher switch port.
    pub crusher_on: Option<i32>,
    /// Reading of the bit crusher depth port.
    pub crusher_bits: Option<i32>,
    /// Reading of the sub oscillator switch port.
    pub sub_on: Option<i32>,
}

/// The settings that changed this run; `None` for those whose ports did not.
#[derive(Clone, Copy, Debug)]
pub struct ControlChanges {
    /// New carrier mode, when the mode, fixed-note or chord port changed.
    pub carrier_mode: Option<CarrierMode>,
    /// New scale, when the scale kind or root port changed.
    pub scale: Option<Scale>,
    /// New compressor switch.
    pub compressor_enabled: Option<bool>,
    /// New pitch algorithm.
    pub pitch_algorithm: Option<PitchAlgorithm>,
    /// New carrier chorus switch.
    pub carrier_chorus_enabled: Option<bool>,
    /// New output chorus switch.
    pub output_chorus_enabled: Option<bool>,
    /// New LFO switch.
    pub tremolo_enabled: Option<bool>,
    /// New LFO target.
    pub tremolo_target: Option<LfoTarget>,
    /// New pre-vocoder saturation switch.
    pub pre_drive_enabled: Option<bool>,
    /// New output saturation switch.
    pub post_drive_enabled: Option<bool>,
    /// New saturation mode.
    pub drive_mode: Option<DriveMode>,
    /// New bit crusher switch.
    pub crusher_enabled: Option<bool>,
    /// New bit crusher depth, as read from the port.
    pub crusher_bits: Option<i32>,
    /// New sub oscillator switch.
    pub sub_enabled: Option<bool>,
}

/// The last value seen on each integer port.
#[derive(Clone, Copy, Debug, PartialEq, Eq, Structural)]
pub struct IntControls {
    /// Last value of the carrier mode (0 mono, 1 chord, 2 fixed, 3 fixed chord) port.
    pub last_mode: i32,
    /// Last value of the fixed MIDI note of the fixed modes port.
    pub last_fixed_note: i32,
    /// Last value of the scale kind (see `Scale::from_int`) port.
    pub last_scale_kind: i32,
    /// Last value of the scale root pitch class port.
    pub last_scale_root: i32,
    /// Last value of the chord voicing (see `ChordVoicing::from_int`) port.
    pub last_chord_type: i32,
    /// Last value of the compressor switch port.
    pub last_comp_on: i32,
    /// Last value of the pitch algorithm (see `PitchAlgorithm::from_int`) port.
    pub last_pitch_algo: i32,
    /// Last value of the carrier chorus switch port.
    pub last_carrier_chorus_on: i32,
    /// Last value of the output chorus switch port.
    pub last_output_chorus_on: i32,
    /// Last value of the LFO switch port.
    pub last_trem_on: i32,
    /// Last value of the LFO target (see `LfoTarget::from_int`) port.
    pub last_trem_target: i32,
    /// Last value of the pre-vocoder saturation switch port.
    pub last_pre_drive_on: i32,
    /// Last value of the output saturation switch port.
    pub last_post_drive_on: i32,
    /// Last value of the saturation mode (see `DriveMode::from_int`) port.
    pub last_drive_mode: i32,
    /// Last value of the bit crusher switch port.
    pub last_crusher_on: i32,
    /// Last value of the bit crusher depth port.
    pub last_crusher_bits: i32,
    /// Last value of the sub oscillator switch port.
    pub last_sub_on: i32,
}

/// The port memory after a run with readings `r`.
pub open spec fn next_controls(s: IntControls, r: PortReadings) -> IntControls {
    IntControls {
        last_mode: port_value(r.mode, s.last_mode),
        last_fixed_note: port_value(r.fixed_note, s.last_fixed_note),
        last_scale_kind: port_value(r.scale_kind, s.last_scale_kind),
        last_scale_root: port_value(r.scale_root, s.last_scale_root),
        last_chord_type: port_value(r.chord_type, s.last_chord_type),
        last_comp_on: port_value(r.comp_on, s.last_comp_on),
        last_pitch_algo: port_value(r.pitch_algo, s.last_pitch_algo),
        last_carrier_chorus_on: port_value(r.carrier_chorus_on,
            s.last_carrier_chorus_on),
        last_output_chorus_on: port_value(r.output_chorus_on, s.last_output_chorus_on),
        last_trem_on: port_value(r.trem_on, s.last_trem_on),
        last_trem_target: port_value(r.trem_target, s.last_trem_target),
        last_pre_drive_on: port_value(r.pre_drive_on, s.last_pre_drive_on),
        last_post_drive_on: port_value(r.post_drive_on, s.last_post_drive_on),
        last_drive_mode: port_value(r.drive_mode, s.last_drive_mode),
        last_crusher_on: port_value(r.crusher_on, s.last_crusher_on),
        last_crusher_bits: port_value(r.crusher_bits, s.last_crusher_bits),
        last_sub_on: port_value(r.sub_on, s.last_sub_on),
    }
}

/// An optional setting that is present exactly when the port value changed.
pub open spec fn on_change<T>(now: i32, last: i32, value: T) -> Option<T> {
    if now != last {
        Some(value)
    } else {
        None
    }
}

impl IntControls {
    /// Memory of a freshly instantiated plugin: every port at the value of
    /// the processor's default setting (mono carrier at fixed note 48 with
    /// a major chord, chromatic scale on C, compressor on, FFT-based YIN,
    /// effects off, LFO on amplitude, tape drive, 16 crusher bits), so the
    /// first run pushes only the ports that read differently.
    pub fn new() -> (c: Self)
        ensures
            c.last_mode == 0,
            c.last_fixed_note == 48,
            c.last_scale_kind == 0,
            c.last_scale_root == 0,
            c.last_chord_type == 1,
            c.last_comp_on == 1,
            c.last_pitch_algo == 1,
            c.last_carrier_chorus_on == 0,
            c.last_output_chorus_on == 0,
            c.last_trem_on == 0,
            c.last_trem_target == 0,
            c.last_pre_drive_on == 0,
            c.last_post_drive_on == 0,
            c.last_drive_mode == 1,
            c.last_crusher_on == 0,
            c.last_crusher_bits == 16,
            c.last_sub_on == 0,
    {
        IntControls {
            last_mode: 0,
            last_fixed_note: 48,
            last_scale_kind: 0,
            last_scale_root: 0,
            last_chord_type: 1,
            last_comp_on: 1,
            last_pitch_algo: 1,
            last_carrier_chorus_on: 0,
            last_output_chorus_on: 0,
            last_trem_on: 0,
            last_trem_target: 0,
            last_pre_drive_on: 0,
            last_post_drive_on: 0,
            last_drive_mode: 1,
            last_crusher_on: 0,
            last_crusher_bits: 16,
            last_sub_on: 0,
        }
    }

    /// Records this run's port readings and returns the settings whose
    /// ports changed. The carrier mode is rebuilt when any of the mode,
    /// fixed-note or chord ports changed, the scale when the kind or root
    /// changed, and every other setting when its own port changed.
    #[verifier::rlimit(40)]
    pub fn apply(&mut self, r: PortReadings) -> (ch: ControlChanges)
        ensures
            *final(self) == next_controls(*old(self), r),
            final(self).last_mode == (match r.mode {
                Some(v) => v,
                None => old(self).last_mode,
            }),
            final(self).last_fixed_note == (match r.fixed_note {
                Some(v) => v,
                None => old(self).last_fixed_note,
            }),
            final(self).last_scale_kind == (match r.scale_kind {
                Some(v) => v,
                None => old(self).last_scale_kind,
            }),
            final(self).last_scale_root == (match r.scale_root {
                Some(v) => v,
                None => old(self).last_scale_root,
            }),
            final(self).last_chord_type == (match r.chord_type {
                Some(v) => v,
                None => old(self).last_chord_type,
            }),
            final(self).last_comp_on == (match r.comp_on {
                Some(v) => v,
                None => old(self).last_comp_on,
            }),
            final(self).last_pitch_algo == (match r.pitch_algo {
                Some(v) => v,
                None => old(self).last_pitch_algo,
            }),
            final(self).last_carrier_chorus_on == (match r.carrier_chorus_on {
                Some(v) => v,
                None => old(self).last_carrier_chorus_on,
            }),
            final(self).last_output_chorus_on == (match r.output_chorus_on {
                Some(v) => v,
                None => old(self).last_output_chorus_on,
            }),
            final(self).last_trem_on == (match r.trem_on {
                Some(v) => v,
                None => old(self).last_trem_on,
            }),
            final(self).last_trem_target == (match r.trem_target {
                Some(v) => v,
                None => old(self).last_trem_target,
            }),
            final(self).last_pre_drive_on == (match r.pre_drive_on {
                Some(v) => v,
                None => old(self).last_pre_drive_on,
            }),
            final(self).last_post_drive_on == (match r.post_drive_on {
                Some(v) => v,
                None => old(self).last_post_drive_on,
            }),
            final(self).last_drive_mode == (match r.drive_mode {
                Some(v) => v,
                None => old(self).last_drive_mode,
            }),
            final(self).last_crusher_on == (match r.crusher_on {
                Some(v) => v,
                None => old(self).last_crusher_on,
            }),
            final(self).last_crusher_bits == (match r.crusher_bits {
                Some(v) => v,
                None => old(self).last_crusher_bits,
            }),
            final(self).last_sub_on == (match r.sub_on {
                Some(v) => v,
                None => old(self).last_sub_on,
            }),
            ch.carrier_mode == (if final(self).last_mode != old(self).last_mode
                || final(self).last_fixed_note != old(self).last_fixed_note
                || final(self).last_chord_type != old(self).last_chord_type {
                Some(
                    carrier_for_ports(
                        final(self).last_mode,
                        final(self).last_fixed_note,
                        final(self).last_chord_type,
                    ),
                )
            } else {
                None
            }),
            ch.scale is Some == (final(self).last_scale_kind != old(self).last_scale_kind
                || final(self).last_scale_root != old(self).last_scale_root),
            ch.scale matches Some(s) ==> s.classes() == kind_classes(
                final(self).last_scale_kind as int,
                (final(self).last_scale_root as int) % 12,
            ),
            ch.compressor_enabled == on_change(
                final(self).last_comp_on,
                old(self).last_comp_on,
                final(self).last_comp_on != 0,
            ),
            ch.pitch_algorithm == on_change(
                final(self).last_pitch_algo,
                old(self).last_pitch_algo,
                algorithm_for_port(final(self).last_pitch_algo as int),
            ),
            ch.carrier_chorus_enabled == on_change(
                final(self).last_carrier_chorus_on,
                old(self).last_carrier_chorus_on,
                final(self).last_carrier_chorus_on != 0,
            ),
            ch.output_chorus_enabled == on_change(
                final(self).last_output_chorus_on,
                old(self).last_output_chorus_on,
                final(self).last_output_chorus_on != 0,
            ),
            ch.tremolo_enabled == on_change(
                final(self).last_trem_on,
                old(self).last_trem_on,
                final(self).last_trem_on != 0,
            ),
            ch.tremolo_target == on_change(
                final(self).last_trem_target,
                old(self).last_trem_target,
                target_for_port(final(self).last_trem_target as int),
            ),
            ch.pre_drive_enabled == on_change(
                final(self).last_pre_drive_on,
                old(self).last_pre_drive_on,
                final(self).last_pre_drive_on != 0,
            ),
            ch.post_drive_enabled == on_change(
                final(self).last_post_drive_on,
                old(self).last_post_drive_on,
                final(self).last_post_drive_on != 0,
            ),
            ch.drive_mode == on_change(
                final(self).last_drive_mode,
                old(self).last_drive_mode,
                drive_mode_for_port(final(self).last_drive_mode as int),
            ),
            ch.crusher_enabled == on_change(
                final(self).last_crusher_on,
                old(self).last_crusher_on,
                final(self).last_crusher_on != 0,
            ),
            ch.crusher_bits == on_change(
                final(self).last_crusher_bits,
                old(self).last_crusher_bits,
                final(self).last_crusher_bits,
            ),
            ch.sub_enabled == on_change(
                final(self).last_sub_on,
                old(self).last_sub_on,
                final(self).last_sub_on != 0,
            ),
    {
        let old_state = *self;
        proof {
            lemma_each_port_feeds_its_own_memory(old_state, r);
        }
        let mode = read_port(r.mode, self.last_mode);
        let fixed_note = read_port(r.fixed_note, self.last_fixed_note);
        let scale_kind = read_port(r.scale_kind, self.last_scale_kind);
        let scale_root = read_port(r.scale_root, self.last_scale_root);
        let chord_type = read_port(r.chord_type, self.last_chord_type);
        let comp_on = read_port(r.comp_on, self.last_comp_on);
        let pitch_algo = read_port(r.pitch_algo, self.last_pitch_algo);
        let carrier_chorus_on = read_port(r.carrier_chorus_on,
            self.last_carrier_chorus_on);
        let output_chorus_on = read_port(r.output_chorus_on, self.last_output_chorus_on);
        let trem_on = read_port(r.trem_on, self.last_trem_on);
        let trem_target = read_port(r.trem_target, self.last_trem_target);
        let pre_drive_on = read_port(r.pre_drive_on, self.last_pre_drive_on);
        let post_drive_on = read_port(r.post_drive_on, self.last_post_drive_on);
        let drive_mode = read_port(r.drive_mode, self.last_drive_mode);
        let crusher_on = read_port(r.crusher_on, self.last_crusher_on);
        let crusher_bits = read_port(r.crusher_bits, self.last_crusher_bits);
        let sub_on = read_port(r.sub_on, self.last_sub_on);
        let carrier_mode = if mode != old_state.last_mode || fixed_note != old_state.last_fixed_note
            || chord_type != old_state.last_chord_type {
            Some(carrier_mode_from_ports(mode, fixed_note, chord_type))
        } else {
            None
        };
        let scale = if scale_kind != old_state.last_scale_kind || scale_root
            != old_state.last_scale_root {
            Some(scale_from_ports(scale_kind, scale_root))
        } else {
            None
        };
        let ch = ControlChanges {
            carrier_mode,
            scale,
            compressor_enabled: switch_change(comp_on, old_state.last_comp_on),
            pitch_algorithm: if pitch_algo != old_state.last_pitch_algo {
                Some(PitchAlgorithm::from_int(pitch_algo))
            } else {
                None
            },
            carrier_chorus_enabled: switch_change(
                carrier_chorus_on,
                old_state.last_carrier_chorus_on,
            ),
            output_chorus_enabled: switch_change(output_chorus_on, old_state.last_output_chorus_on),
            tremolo_enabled: switch_change(trem_on, old_state.last_trem_on),
            tremolo_target: if trem_target != old_state.last_trem_target {
                Some(LfoTarget::from_int(trem_target))
            } else {
                None
            },
            pre_drive_enabled: switch_change(pre_drive_on, old_state.last_pre_drive_on),
            post_drive_enabled: switch_change(post_drive_on, old_state.last_post_drive_on),
            drive_mode: if drive_mode != old_state.last_drive_mode {
                Some(DriveMode::from_int(drive_mode))
            } else {
                None
            },
            crusher_enabled: switch_change(crusher_on, old_state.last_crusher_on),
            crusher_bits: if crusher_bits != old_state.last_crusher_bits {
                Some(crusher_bits)
            } else {
                None
            },
            sub_enabled: switch_change(sub_on, old_state.last_sub_on),
        };
        *self = IntControls {
            last_mode: mode,
            last_fixed_note: fixed_note,
            last_scale_kind: scale_kind,
            last_scale_root: scale_root,
            last_chord_type: chord_type,
            last_comp_on: comp_on,
            last_pitch_algo: pitch_algo,
            last_carrier_chorus_on: carrier_chorus_on,
            last_output_chorus_on: output_chorus_on,
            last_trem_on: trem_on,
            last_trem_target: trem_target,
            last_pre_drive_on: pre_drive_on,
            last_post_drive_on: post_drive_on,
            last_drive_mode: drive_mode,
            last_crusher_on: crusher_on,
            last_crusher_bits: crusher_bits,
            last_sub_on: sub_on,
        };
        ch
    }
}

/// A switch setting that is present exactly when its port value changed:
/// on for any non-zero value.
fn switch_change(now: i32, last: i32) -> (r: Option<bool>)
    ensures
        r == on_change(now, last, now != 0),
{
    if now != last {
        Some(now != 0)
    } else {
        None
    }
}

/// This run's value of a port: its reading, or the last value when
/// unconnected.
fn read_port(r: Option<i32>, last: i32) -> (v: i32)
    ensures
        v == port_value(r, last),
{
    match r {
        Some(v) => v,
        None => last,
    }
}

/// Each port's remembered value comes from that same port: its reading
/// when connected, its own last value otherwise.
pub proof fn lemma_each_port_feeds_its_own_memory(s: IntControls, r: PortReadings)
    ensures
        next_controls(s, r).last_mode == (match r.mode {
            Some(v) => v,
            None => s.last_mode,
        }),
        next_controls(s, r).last_fixed_note == (match r.fixed_note {
            Some(v) => v,
            None => s.last_fixed_note,
        }),
        next_controls(s, r).last_scale_kind == (match r.scale_kind {
            Some(v) => v,
            None => s.last_scale_kind,
        }),
        next_controls(s, r).last_scale_root == (match r.scale_root {
            Some(v) => v,
            None => s.last_scale_root,
        }),
        next_controls(s, r).last_chord_type == (match r.chord_type {
            Some(v) => v,
            None => s.last_chord_type,
        }),
        next_controls(s, r).last_comp_on == (match r.comp_on {
            Some(v) => v,
            None => s.last_comp_on,
        }),
        next_controls(s, r).last_pitch_algo == (match r.pitch_algo {
            Some(v) => v,
            None => s.last_pitch_algo,
        }),
        next_controls(s, r).last_carrier_chorus_on == (match r.carrier_chorus_on {
            Some(v) => v,
            None => s.last_carrier_chorus_on,
        }),
        next_controls(s, r).last_output_chorus_on == (match r.output_chorus_on {
            Some(v) => v,
            None => s.last_output_chorus_on,
        }),
        next_controls(s, r).last_trem_on == (match r.trem_on {
            Some(v) => v,
            None => s.last_trem_on,
        }),
        next_controls(s, r).last_trem_target == (match r.trem_target {
            Some(v) => v,
            None => s.last_trem_target,
        }),
        next_controls(s, r).last_pre_drive_on == (match r.pre_drive_on {
            Some(v) => v,
            None => s.last_pre_drive_on,
        }),
        next_controls(s, r).last_post_drive_on == (match r.post_drive_on {
            Some(v) => v,
            None => s.last_post_drive_on,
        }),
        next_controls(s, r).last_drive_mode == (match r.drive_mode {
            Some(v) => v,
            None => s.last_drive_mode,
        }),
        next_controls(s, r).last_crusher_on == (match r.crusher_on {
            Some(v) => v,
            None => s.last_crusher_on,
        }),
        next_controls(s, r).last_crusher_bits == (match r.crusher_bits {
            Some(v) => v,
            None => s.last_crusher_bits,
        }),
        next_controls(s, r).last_sub_on == (match r.sub_on {
            Some(v) => v,
            None => s.last_sub_on,
        }),
{
}

/// Every voicing can be chosen from the chord port by its number, in both
/// chord modes, and a fixed note in MIDI range is played as given.
pub proof fn lemma_chord_port_selects_voicing(v: ChordVoicing, fixed_note: i32)
    requires
        0 <= fixed_note <= 127,
    ensures
        carrier_for_ports(1, fixed_note, voicing_index(v) as i32) == CarrierMode::Chord(v),
        carrier_for_ports(3, fixed_note, voicing_index(v) as i32) == (CarrierMode::FixedChord {
            midi: fixed_note as u8,
            voicing: v,
        }),
        carrier_for_ports(2, fixed_note, voicing_index(v) as i32) == (CarrierMode::Fixed {
            midi: fixed_note as u8,
        }),
{
}

/// With no integer port connected, a run pushes no setting: each setting
/// keeps its current value, which before any port is connected is the
/// processor's default.
pub proof fn lemma_unconnected_run_is_quiet(s: IntControls)
    ensures
        next_controls(
            s,
            PortReadings {
                mode: None,
                fixed_note: None,
                scale_kind: None,
                scale_root: None,
                chord_type: None,
                comp_on: None,
                pitch_algo: None,
                carrier_chorus_on: None,
                output_chorus_on: None,
                trem_on: None,
                trem_target: None,
                pre_drive_on: None,
                post_drive_on: None,
                drive_mode: None,
                crusher_on: None,
                crusher_bits: None,
                sub_on: None,
            },
        ) == s,
{
}

/// The port memory after a run with readings `r`, run again with the same
/// readings, is left as it is: repeating a run pushes no setting.
pub proof fn lemma_repeat_run_is_quiet(s: IntControls, r: PortReadings)
    ensures
        next_controls(next_controls(s, r), r) == next_controls(s, r),
{
}

} // verus!
