use autovocoder_dsp::scale::Scale;

fn members(s: &Scale) -> Vec<u8> {
    (0u8..12).filter(|&pc| s.contains(pc)).collect()
}

#[test]
fn quantize_to_c_major_snaps_c_sharp_to_c() {
    // C major is 0,2,4,5,7,9,11. C#=1 is NOT in scale; should go to C=0 or D=2.
    let c_major = Scale::major(0);
    let q_midi = c_major.nearest_note(61).expect("a C major note lies near C#4");
    assert!(q_midi == 60 || q_midi == 62, "expected 60 or 62, got {q_midi}");
    // Equally close notes resolve downward.
    assert_eq!(q_midi, 60);
}

#[test]
fn scale_constructors_hold_their_steps() {
    assert_eq!(members(&Scale::major(0)), vec![0, 2, 4, 5, 7, 9, 11]);
    assert_eq!(members(&Scale::minor(0)), vec![0, 2, 3, 5, 7, 8, 10]);
    assert_eq!(members(&Scale::dorian(0)), vec![0, 2, 3, 5, 7, 9, 10]);
    assert_eq!(members(&Scale::phrygian(0)), vec![0, 1, 3, 5, 7, 8, 10]);
    assert_eq!(members(&Scale::lydian(0)), vec![0, 2, 4, 6, 7, 9, 11]);
    assert_eq!(members(&Scale::mixolydian(0)), vec![0, 2, 4, 5, 7, 9, 10]);
    assert_eq!(members(&Scale::harmonic_minor(0)), vec![0, 2, 3, 5, 7, 8, 11]);
    assert_eq!(members(&Scale::major_pentatonic(0)), vec![0, 2, 4, 7, 9]);
    assert_eq!(members(&Scale::minor_pentatonic(0)), vec![0, 3, 5, 7, 10]);
    assert_eq!(members(&Scale::blues(0)), vec![0, 3, 5, 6, 7, 10]);
    assert_eq!(members(&Scale::chromatic()), (0u8..12).collect::<Vec<u8>>());
}

#[test]
fn a_minor_is_c_major_transposed() {
    // A natural minor (root 9) holds the same pitch classes as C major.
    assert_eq!(members(&Scale::minor(9)), members(&Scale::major(0)));
    // D major: D E F# G A B C#.
    assert_eq!(members(&Scale::major(2)), vec![1, 2, 4, 6, 7, 9, 11]);
}

#[test]
fn rotated_root_past_an_octave_wraps() {
    assert_eq!(members(&Scale::major(14)), members(&Scale::major(2)));
    assert_eq!(members(&Scale::blues(250)), members(&Scale::blues(250 % 12)));
}

#[test]
fn from_pitch_classes_takes_classes_modulo_12() {
    let s = Scale::from_pitch_classes(&[0, 4, 19, 24]);
    assert_eq!(members(&s), vec![0, 4, 7]);
    assert_eq!(members(&Scale::from_pitch_classes(&[])), Vec::<u8>::new());
}

#[test]
fn contains_reads_pitch_class_of_any_note() {
    let c_major = Scale::major(0);
    assert!(c_major.contains(60));
    assert!(!c_major.contains(61));
    assert!(c_major.contains(251)); // 251 = 20 * 12 + 11, a B
}

#[test]
fn from_int_maps_every_kind() {
    let expect = [
        Scale::chromatic(),
        Scale::major(3),
        Scale::minor(3),
        Scale::dorian(3),
        Scale::phrygian(3),
        Scale::lydian(3),
        Scale::mixolydian(3),
        Scale::harmonic_minor(3),
        Scale::major_pentatonic(3),
        Scale::minor_pentatonic(3),
        Scale::blues(3),
    ];
    for (k, s) in expect.iter().enumerate() {
        assert_eq!(members(&Scale::from_int(k as i32, 3)), members(s), "kind {k}");
    }
    for k in [-1, 11, 99, i32::MIN, i32::MAX] {
        assert_eq!(members(&Scale::from_int(k, 3)), members(&Scale::chromatic()));
    }
}

#[test]
fn chromatic_quantize_keeps_every_note() {
    let c = Scale::chromatic();
    for n in 0..128 {
        assert_eq!(c.nearest_note(n), Some(n as i64));
    }
}

#[test]
fn quantize_searches_outward_and_prefers_lower() {
    let c_major = Scale::major(0);
    assert_eq!(c_major.nearest_note(60), Some(60));
    assert_eq!(c_major.nearest_note(66), Some(65)); // F# -> F (G is as close)
    assert_eq!(c_major.nearest_note(70), Some(69)); // A# -> A
    // Pentatonic on C: 0 2 4 7 9. Note 65 (F) is 1 from E(64), 2 from G(67).
    assert_eq!(Scale::major_pentatonic(0).nearest_note(65), Some(64));
}

#[test]
fn quantize_skips_negative_notes() {
    // Only pitch class 11 (B); from note 2 the nearest non-negative B is 11.
    let b_only = Scale::from_pitch_classes(&[11]);
    assert_eq!(b_only.nearest_note(2), None); // 11 is 9 semitones away
    assert_eq!(b_only.nearest_note(5), Some(11));
    assert_eq!(b_only.nearest_note(-1), None);
    assert_eq!(Scale::chromatic().nearest_note(-3), Some(0));
}

#[test]
fn quantize_empty_scale_finds_nothing() {
    let empty = Scale::from_pitch_classes(&[]);
    assert_eq!(empty.nearest_note(60), None);
}

#[test]
fn nonempty_scale_always_snaps_from_6_up() {
    for pcs in [[0u8], [5], [11]] {
        let s = Scale::from_pitch_classes(&pcs);
        for n in 6..140 {
            let q = s.nearest_note(n).expect("a note of the scale lies within 6 semitones");
            assert!((q - n as i64).abs() <= 6);
            assert!(s.contains((q % 12) as u8));
        }
    }
}

#[test]
fn quantize_handles_extreme_notes() {
    // Pitch class of i32::MAX is 7; D (2) is furthest up the search.
    let d_only = Scale::from_pitch_classes(&[2]);
    let q = d_only.nearest_note(i32::MAX).unwrap();
    assert_eq!(q % 12, 2);
    assert!((q - i32::MAX as i64).abs() <= 6);
    assert_eq!(Scale::chromatic().nearest_note(i32::MIN), None);
}

#[test]
fn snapped_notes_snap_to_themselves() {
    for s in [Scale::major(0), Scale::blues(7), Scale::from_pitch_classes(&[3])] {
        for n in 0..140 {
            if let Some(q) = s.nearest_note(n) {
                assert_eq!(s.nearest_note(q as i32), Some(q));
            }
            if s.contains((n % 12) as u8) {
                assert_eq!(s.nearest_note(n), Some(n as i64));
            }
        }
    }
}

#[test]
fn quantize_in_cents_measures_to_the_exact_pitch() {
    // Scale {C#, B}: 40 cents above middle C is nearer C#4 (61) than B3 (59).
    let s = Scale::from_pitch_classes(&[1, 11]);
    assert_eq!(s.nearest_note_cents(6040), Some(61));
    assert_eq!(s.nearest_note(60), Some(59)); // whole note: tie goes down
    assert_eq!(s.nearest_note_cents(6000), Some(59));
    assert_eq!(s.nearest_note_cents(5990), Some(59));
    // C major, 60.5: halfway between C and C#, C# not in scale -> C.
    assert_eq!(Scale::major(0).nearest_note_cents(6050), Some(60));
    // Exactly between E (64) and F (65) only in pentatonic terms: E wins.
    assert_eq!(Scale::from_pitch_classes(&[4, 5]).nearest_note_cents(6450), Some(64));
    assert_eq!(Scale::from_pitch_classes(&[4, 5]).nearest_note_cents(6451), Some(65));
}

#[test]
fn quantize_in_cents_window_and_edges() {
    let b_only = Scale::from_pitch_classes(&[11]);
    // 11 is 6.5 semitones above 4.5: still in reach; 4.49 is not.
    assert_eq!(b_only.nearest_note_cents(450), Some(11));
    assert_eq!(b_only.nearest_note_cents(449), None);
    assert_eq!(Scale::chromatic().nearest_note_cents(-40), Some(0));
    assert_eq!(Scale::chromatic().nearest_note_cents(-700), None);
    assert_eq!(Scale::from_pitch_classes(&[]).nearest_note_cents(6000), None);
    assert!(Scale::chromatic().nearest_note_cents(i32::MAX).is_some());
    assert_eq!(Scale::chromatic().nearest_note_cents(i32::MIN), None);
}

#[test]
fn whole_note_cents_agree_with_notes() {
    for s in [Scale::major(0), Scale::blues(5), Scale::from_pitch_classes(&[11])] {
        for n in -10..140 {
            assert_eq!(s.nearest_note_cents(n * 100), s.nearest_note(n), "note {n}");
        }
    }
}
