use autovocoder_dsp::autovocoder::{CarrierMode, ChordVoicing};
use autovocoder_dsp::controls::{
    carrier_mode_from_ports, scale_from_ports, IntControls, PortReadings,
};
use autovocoder_dsp::pitch::PitchAlgorithm;
use autovocoder_dsp::saturate::DriveMode;
use autovocoder_dsp::scale::Scale;
use autovocoder_dsp::tremolo::LfoTarget;

fn members(s: &Scale) -> Vec<u8> {
    (0u8..12).filter(|&pc| s.contains(pc)).collect()
}

fn unconnected() -> PortReadings {
    PortReadings {
        mode: None,
        fixed_note: None,
        scale_kind: None,
        scale_root: None,
        chord_type: None,
        comp_on: None,
        pitch_algo: None,
        carrier_chorus_on: None,
        output_chorus_on: None,
        trem_on: None,
        trem_target: None,
        pre_drive_on: None,
        post_drive_on: None,
        drive_mode: None,
        crusher_on: None,
        crusher_bits: None,
        sub_on: None,
    }
}

#[test]
fn carrier_mode_ports() {
    assert_eq!(carrier_mode_from_ports(0, 48, 1), CarrierMode::Mono);
    assert_eq!(carrier_mode_from_ports(1, 48, 8), CarrierMode::Chord(ChordVoicing::Min7));
    assert_eq!(carrier_mode_from_ports(2, 48, 8), CarrierMode::Fixed { midi: 48 });
    assert_eq!(
        carrier_mode_from_ports(3, 200, 99),
        CarrierMode::FixedChord { midi: 127, voicing: ChordVoicing::Major }
    );
    assert_eq!(carrier_mode_from_ports(2, -5, 0), CarrierMode::Fixed { midi: 0 });
    assert_eq!(carrier_mode_from_ports(-1, 0, 0), CarrierMode::Mono);
}

#[test]
fn scale_ports_wrap_root() {
    assert_eq!(members(&scale_from_ports(1, 0)), members(&Scale::major(0)));
    assert_eq!(members(&scale_from_ports(1, 14)), members(&Scale::major(2)));
    assert_eq!(members(&scale_from_ports(2, -1)), members(&Scale::minor(11)));
    assert_eq!(members(&scale_from_ports(2, -12)), members(&Scale::minor(0)));
    assert_eq!(members(&scale_from_ports(1, i32::MIN)), members(&Scale::major(4)));
    assert_eq!(members(&scale_from_ports(42, 3)), members(&Scale::chromatic()));
}

#[test]
fn first_run_with_unconnected_ports() {
    // Nothing connected: every setting keeps the processor default, so no
    // setting is pushed.
    let mut c = IntControls::new();
    let before = c;
    let ch = c.apply(unconnected());
    assert_eq!(c, before);
    assert!(ch.carrier_mode.is_none());
    assert!(ch.scale.is_none());
    assert!(ch.compressor_enabled.is_none());
    assert!(ch.pitch_algorithm.is_none());
    assert!(ch.tremolo_target.is_none());
    assert!(ch.drive_mode.is_none());
    assert!(ch.crusher_bits.is_none());
    assert!(ch.sub_enabled.is_none());
}

#[test]
fn initial_memory_is_processor_defaults() {
    let c = IntControls::new();
    assert_eq!(c.last_mode, 0);
    assert_eq!(c.last_scale_kind, 0);
    assert_eq!(c.last_scale_root, 0);
    assert_eq!(c.last_chord_type, 1);
    assert_eq!(c.last_comp_on, 1);
    assert_eq!(c.last_pitch_algo, 1);
    assert_eq!(c.last_drive_mode, 1);
    assert_eq!(c.last_crusher_bits, 16);
    assert_eq!(c.last_crusher_on, 0);
    assert_eq!(c.last_sub_on, 0);
}

#[test]
fn connected_port_at_default_pushes_nothing() {
    let mut readings = unconnected();
    readings.comp_on = Some(1);
    readings.pitch_algo = Some(1);
    readings.crusher_bits = Some(16);
    readings.mode = Some(0);
    let mut c = IntControls::new();
    let ch = c.apply(readings);
    assert!(ch.compressor_enabled.is_none());
    assert!(ch.pitch_algorithm.is_none());
    assert!(ch.crusher_bits.is_none());
    assert!(ch.carrier_mode.is_none());
    readings.comp_on = Some(0);
    let ch = c.apply(readings);
    assert_eq!(ch.compressor_enabled, Some(false));
}

#[test]
fn repeated_run_pushes_nothing() {
    let mut readings = unconnected();
    readings.mode = Some(3);
    readings.fixed_note = Some(45);
    readings.chord_type = Some(13);
    readings.scale_kind = Some(2);
    readings.scale_root = Some(9);
    readings.comp_on = Some(0);
    readings.pitch_algo = Some(2);
    readings.trem_on = Some(1);
    readings.trem_target = Some(1);
    readings.drive_mode = Some(2);
    readings.crusher_bits = Some(8);
    let mut c = IntControls::new();
    let first = c.apply(readings);
    assert_eq!(
        first.carrier_mode,
        Some(CarrierMode::FixedChord { midi: 45, voicing: ChordVoicing::Dom9 })
    );
    assert_eq!(members(&first.scale.unwrap()), members(&Scale::minor(9)));
    assert_eq!(first.compressor_enabled, Some(false));
    assert_eq!(first.pitch_algorithm, Some(PitchAlgorithm::FftPeak));
    assert_eq!(first.tremolo_enabled, Some(true));
    assert_eq!(first.tremolo_target, Some(LfoTarget::Pitch));
    assert_eq!(first.drive_mode, Some(DriveMode::Fuzz));
    assert_eq!(first.crusher_bits, Some(8));
    let before = c;
    let second = c.apply(readings);
    assert_eq!(c, before);
    assert!(second.carrier_mode.is_none());
    assert!(second.scale.is_none());
    assert!(second.compressor_enabled.is_none());
    assert!(second.pitch_algorithm.is_none());
    assert!(second.carrier_chorus_enabled.is_none());
    assert!(second.output_chorus_enabled.is_none());
    assert!(second.tremolo_enabled.is_none());
    assert!(second.tremolo_target.is_none());
    assert!(second.pre_drive_enabled.is_none());
    assert!(second.post_drive_enabled.is_none());
    assert!(second.drive_mode.is_none());
    assert!(second.crusher_enabled.is_none());
    assert!(second.crusher_bits.is_none());
    assert!(second.sub_enabled.is_none());
}

#[test]
fn only_changed_ports_are_pushed() {
    let mut readings = unconnected();
    readings.mode = Some(0);
    let mut c = IntControls::new();
    c.apply(readings);
    readings.chord_type = Some(4);
    readings.sub_on = Some(1);
    let ch = c.apply(readings);
    // A chord change rebuilds the carrier even in mono mode.
    assert_eq!(ch.carrier_mode, Some(CarrierMode::Mono));
    assert_eq!(ch.sub_enabled, Some(true));
    assert!(ch.scale.is_none());
    assert!(ch.crusher_bits.is_none());
    // Disconnecting a port keeps its last value.
    readings.sub_on = None;
    let ch = c.apply(readings);
    assert!(ch.sub_enabled.is_none());
    assert_eq!(c.last_sub_on, 1);
}
