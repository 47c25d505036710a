use autovocoder_dsp::autovocoder::{CarrierMode, ChordVoicing, CARRIER_VOICES};

const ALL: [ChordVoicing; 15] = [
    ChordVoicing::Power,
    ChordVoicing::Major,
    ChordVoicing::Minor,
    ChordVoicing::Sus2,
    ChordVoicing::Sus4,
    ChordVoicing::Diminished,
    ChordVoicing::Augmented,
    ChordVoicing::Maj7,
    ChordVoicing::Min7,
    ChordVoicing::Dom7,
    ChordVoicing::Dim7,
    ChordVoicing::HalfDim7,
    ChordVoicing::Add9,
    ChordVoicing::Dom9,
    ChordVoicing::Min9,
];

#[test]
fn voicing_intervals_match_the_chord_table() {
    assert_eq!(ChordVoicing::Power.intervals(), vec![0, 7]);
    assert_eq!(ChordVoicing::Major.intervals(), vec![0, 4, 7]);
    assert_eq!(ChordVoicing::Minor.intervals(), vec![0, 3, 7]);
    assert_eq!(ChordVoicing::Sus2.intervals(), vec![0, 2, 7]);
    assert_eq!(ChordVoicing::Sus4.intervals(), vec![0, 5, 7]);
    assert_eq!(ChordVoicing::Diminished.intervals(), vec![0, 3, 6]);
    assert_eq!(ChordVoicing::Augmented.intervals(), vec![0, 4, 8]);
    assert_eq!(ChordVoicing::Maj7.intervals(), vec![0, 4, 7, 11]);
    assert_eq!(ChordVoicing::Min7.intervals(), vec![0, 3, 7, 10]);
    assert_eq!(ChordVoicing::Dom7.intervals(), vec![0, 4, 7, 10]);
    assert_eq!(ChordVoicing::Dim7.intervals(), vec![0, 3, 6, 9]);
    assert_eq!(ChordVoicing::HalfDim7.intervals(), vec![0, 3, 6, 10]);
    assert_eq!(ChordVoicing::Add9.intervals(), vec![0, 4, 7, 14]);
    assert_eq!(ChordVoicing::Dom9.intervals(), vec![0, 4, 7, 10, 14]);
    assert_eq!(ChordVoicing::Min9.intervals(), vec![0, 3, 7, 10, 14]);
}

#[test]
fn every_voicing_fits_the_bank_and_rises_from_root() {
    for v in ALL {
        let iv = v.intervals();
        assert!(iv.len() >= 2 && iv.len() <= CARRIER_VOICES);
        assert_eq!(iv[0], 0);
        assert!(iv.windows(2).all(|w| w[0] < w[1]));
    }
}

#[test]
fn voicing_from_int_follows_declaration_order() {
    for (i, v) in ALL.iter().enumerate() {
        assert_eq!(ChordVoicing::from_int(i as i32), *v);
    }
    for i in [-1, 15, 100, i32::MIN, i32::MAX] {
        assert_eq!(ChordVoicing::from_int(i), ChordVoicing::Major);
    }
}

#[test]
fn triad_shortcuts() {
    assert_eq!(CarrierMode::major_triad(), CarrierMode::Chord(ChordVoicing::Major));
    assert_eq!(CarrierMode::minor_triad(), CarrierMode::Chord(ChordVoicing::Minor));
}

#[test]
fn carrier_voice_layout() {
    assert_eq!(CarrierMode::Mono.voice_intervals(), vec![0]);
    assert_eq!(CarrierMode::Fixed { midi: 48 }.voice_intervals(), vec![0]);
    assert_eq!(CarrierMode::minor_triad().voice_intervals(), vec![0, 3, 7]);
    assert_eq!(
        CarrierMode::FixedChord { midi: 36, voicing: ChordVoicing::Dom9 }.voice_intervals(),
        vec![0, 4, 7, 10, 14]
    );
    for v in ALL {
        assert_eq!(CarrierMode::Chord(v).voice_intervals(), v.intervals());
    }
}

#[test]
fn carrier_root_source() {
    assert_eq!(CarrierMode::Mono.fixed_root(), None);
    assert_eq!(CarrierMode::major_triad().fixed_root(), None);
    assert_eq!(CarrierMode::Fixed { midi: 48 }.fixed_root(), Some(48));
    assert_eq!(
        CarrierMode::FixedChord { midi: 45, voicing: ChordVoicing::Power }.fixed_root(),
        Some(45)
    );
}
