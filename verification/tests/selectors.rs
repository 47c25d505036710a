use autovocoder_dsp::autovocoder::{CarrierMode, ChordVoicing};
use autovocoder_dsp::cli::{Chord, Mode, ScaleKind};
use autovocoder_dsp::pitch::PitchAlgorithm;
use autovocoder_dsp::saturate::DriveMode;
use autovocoder_dsp::scale::Scale;
use autovocoder_dsp::tremolo::LfoTarget;

fn members(s: &Scale) -> Vec<u8> {
    (0u8..12).filter(|&pc| s.contains(pc)).collect()
}

#[test]
fn pitch_algorithm_from_int() {
    assert_eq!(PitchAlgorithm::from_int(0), PitchAlgorithm::YinClassic);
    assert_eq!(PitchAlgorithm::from_int(1), PitchAlgorithm::YinFft);
    assert_eq!(PitchAlgorithm::from_int(2), PitchAlgorithm::FftPeak);
    assert_eq!(PitchAlgorithm::from_int(3), PitchAlgorithm::YinFft);
    assert_eq!(PitchAlgorithm::from_int(-1), PitchAlgorithm::YinFft);
}

#[test]
fn drive_mode_from_int() {
    assert_eq!(DriveMode::from_int(0), DriveMode::Tube);
    assert_eq!(DriveMode::from_int(1), DriveMode::Tape);
    assert_eq!(DriveMode::from_int(2), DriveMode::Fuzz);
    assert_eq!(DriveMode::from_int(7), DriveMode::Tape);
    assert_eq!(DriveMode::from_int(-2), DriveMode::Tape);
}

#[test]
fn lfo_target_from_int() {
    assert_eq!(LfoTarget::from_int(0), LfoTarget::Amplitude);
    assert_eq!(LfoTarget::from_int(1), LfoTarget::Pitch);
    assert_eq!(LfoTarget::from_int(2), LfoTarget::DryWet);
    assert_eq!(LfoTarget::from_int(3), LfoTarget::CarrierLevel);
    assert_eq!(LfoTarget::from_int(4), LfoTarget::Amplitude);
    assert_eq!(LfoTarget::from_int(-1), LfoTarget::Amplitude);
}

#[test]
fn chord_choice_names_its_voicing() {
    let pairs = [
        (Chord::Power, ChordVoicing::Power),
        (Chord::Major, ChordVoicing::Major),
        (Chord::Minor, ChordVoicing::Minor),
        (Chord::Sus2, ChordVoicing::Sus2),
        (Chord::Sus4, ChordVoicing::Sus4),
        (Chord::Diminished, ChordVoicing::Diminished),
        (Chord::Augmented, ChordVoicing::Augmented),
        (Chord::Maj7, ChordVoicing::Maj7),
        (Chord::Min7, ChordVoicing::Min7),
        (Chord::Dom7, ChordVoicing::Dom7),
        (Chord::Dim7, ChordVoicing::Dim7),
        (Chord::HalfDim7, ChordVoicing::HalfDim7),
        (Chord::Add9, ChordVoicing::Add9),
        (Chord::Dom9, ChordVoicing::Dom9),
        (Chord::Min9, ChordVoicing::Min9),
    ];
    for (c, v) in pairs {
        assert_eq!(c.to_voicing(), v);
    }
}

#[test]
fn mode_choice_builds_carrier() {
    assert_eq!(Mode::Mono.to_carrier_mode(Chord::Dom7, 48), CarrierMode::Mono);
    assert_eq!(
        Mode::Chord.to_carrier_mode(Chord::Dom7, 48),
        CarrierMode::Chord(ChordVoicing::Dom7)
    );
    assert_eq!(Mode::Fixed.to_carrier_mode(Chord::Dom7, 48), CarrierMode::Fixed { midi: 48 });
    assert_eq!(
        Mode::FixedChord.to_carrier_mode(Chord::Minor, 36),
        CarrierMode::FixedChord { midi: 36, voicing: ChordVoicing::Minor }
    );
}

#[test]
fn scale_choice_builds_scale() {
    assert_eq!(members(&ScaleKind::Chromatic.to_scale(5)), members(&Scale::chromatic()));
    assert_eq!(members(&ScaleKind::Major.to_scale(0)), members(&Scale::major(0)));
    assert_eq!(members(&ScaleKind::Minor.to_scale(21)), members(&Scale::minor(9)));
}
