//! Command-line selectors: carrier mode, chord and scale kind as the
//! standalone program offers them, and how they become library settings.

use vstd::prelude::*;
use crate::autovocoder::{CarrierMode, ChordVoicing, mode_fixed_root, voicing_index};
use crate::scale::{
    Scale,
    chromatic_classes,
    major_steps,
    minor_steps,
    rotated_classes,
    lemma_transpose,
};

verus! {

/// Carrier mode choice.
#[derive(Clone, Copy, Debug, PartialEq, Eq, Structural)]
pub enum Mode {
    /// One saw that tracks the detected pitch.
    Mono,
    /// A chord whose root tracks the detected pitch.
    Chord,
    /// One saw at the fixed note.
    Fixed,
    /// A chord rooted at the fixed note (classic Soundwave).
    FixedChord,
}

/// Chord voicing choice, one per library voicing.
#[derive(Clone, Copy, Debug, PartialEq, Eq, Structural)]
pub enum Chord {
    Power,
    Major,
    Minor,
    Sus2,
    Sus4,
    Diminished,
    Augmented,
    Maj7,
    Min7,
    Dom7,
    Dim7,
    HalfDim7,
    Add9,
    Dom9,
    Min9,
}

/// Scale choice.
#[derive(Clone, Copy, Debug, PartialEq, Eq, Structural)]
pub enum ScaleKind {
    Chromatic,
    Major,
    Minor,
}

/// The library voicing of the same name.
pub open spec fn chord_voicing(c: Chord) -> ChordVoicing {
    match c {
        Chord::Power => ChordVoicing::Power,
        Chord::Major => ChordVoicing::Major,
        Chord::Minor => ChordVoicing::Minor,
        Chord::Sus2 => ChordVoicing::Sus2,
        Chord::Sus4 => ChordVoicing::Sus4,
        Chord::Diminished => ChordVoicing::Diminished,
        Chord::Augmented => ChordVoicing::Augmented,
        Chord::Maj7 => ChordVoicing::Maj7,
        Chord::Min7 => ChordVoicing::Min7,
        Chord::Dom7 => ChordVoicing::Dom7,
        Chord::Dim7 => ChordVoicing::Dim7,
        Chord::HalfDim7 => ChordVoicing::HalfDim7,
        Chord::Add9 => ChordVoicing::Add9,
        Chord::Dom9 => ChordVoicing::Dom9,
        Chord::Min9 => ChordVoicing::Min9,
    }
}

/// The carrier mode that a mode choice, chord choice and fixed note select.
pub open spec fn mode_carrier(m: Mode, c: Chord, fixed_note: u8) -> CarrierMode {
    match m {
        Mode::Mono => CarrierMode::Mono,
        Mode::Chord => CarrierMode::Chord(chord_voicing(c)),
        Mode::Fixed => CarrierMode::Fixed { midi: fixed_note },
        Mode::FixedChord => CarrierMode::FixedChord { midi: fixed_note, voicing: chord_voicing(c) },
    }
}

/// The pitch classes of a scale choice rooted at pitch class `root % 12`.
pub open spec fn kind_scale_classes(k: ScaleKind, root: u8) -> Set<int> {
    match k {
        ScaleKind::Chromatic => chromatic_classes(),
        ScaleKind::Major => rotated_classes((root % 12) as int, major_steps()),
        ScaleKind::Minor => rotated_classes((root % 12) as int, minor_steps()),
    }
}

impl Chord {
    /// The library voicing of the same name.
    pub fn to_voicing(self) -> (v: ChordVoicing)
        ensures
            v == chord_voicing(self),
            voicing_index(v) == chord_index(self),
    {
        match self {
            Chord::Power => ChordVoicing::Power,
            Chord::Major => ChordVoicing::Major,
            Chord::Minor => ChordVoicing::Minor,
            Chord::Sus2 => ChordVoicing::Sus2,
            Chord::Sus4 => ChordVoicing::Sus4,
            Chord::Diminished => ChordVoicing::Diminished,
            Chord::Augmented => ChordVoicing::Augmented,
            Chord::Maj7 => ChordVoicing::Maj7,
            Chord::Min7 => ChordVoicing::Min7,
            Chord::Dom7 => ChordVoicing::Dom7,
            Chord::Dim7 => ChordVoicing::Dim7,
            Chord::HalfDim7 => ChordVoicing::HalfDim7,
            Chord::Add9 => ChordVoicing::Add9,
            Chord::Dom9 => ChordVoicing::Dom9,
            Chord::Min9 => ChordVoicing::Min9,
        }
    }
}

impl Mode {
    /// The carrier mode selected by this mode, the chord choice (used by the
    /// chord modes) and the fixed MIDI note (used by the fixed modes).
    pub fn to_carrier_mode(self, chord: Chord, fixed_note: u8) -> (m: CarrierMode)
        ensures
            m == mode_carrier(self, chord, fixed_note),
            self == Mode::Mono ==> m == CarrierMode::Mono,
            self == Mode::Chord ==> m == CarrierMode::Chord(chord_voicing(chord)),
            self == Mode::Fixed ==> m == (CarrierMode::Fixed { midi: fixed_note }),
            self == Mode::FixedChord ==> m == (CarrierMode::FixedChord {
                midi: fixed_note,
                voicing: chord_voicing(chord),
            }),
            mode_fixed_root(m) == (if self == Mode::Fixed || self == Mode::FixedChord {
                Some(fixed_note)
            } else {
                None
            }),
    {
        let voicing = chord.to_voicing();
        match self {
            Mode::Mono => CarrierMode::Mono,
            Mode::Chord => CarrierMode::Chord(voicing),
            Mode::Fixed => CarrierMode::Fixed { midi: fixed_note },
            Mode::FixedChord => CarrierMode::FixedChord { midi: fixed_note, voicing },
        }
    }
}

impl ScaleKind {
    /// The scale of this kind rooted at pitch class `root % 12`.
    pub fn to_scale(self, root: u8) -> (s: Scale)
        ensures
            s.classes() == kind_scale_classes(self, root),
            self == ScaleKind::Chromatic ==> s.classes() == chromatic_classes(),
            self == ScaleKind::Major ==> s.classes() == rotated_classes(
                (root % 12) as int,
                major_steps(),
            ),
            self == ScaleKind::Minor ==> s.classes() == rotated_classes(
                (root % 12) as int,
                minor_steps(),
            ),
    {
        match self {
            ScaleKind::Chromatic => Scale::chromatic(),
            ScaleKind::Major => Scale::major(root % 12),
            ScaleKind::Minor => Scale::minor(root % 12),
        }
    }
}

/// Position of a chord choice in the command-line menu, from 0.
pub open spec fn chord_index(c: Chord) -> int {
    match c {
        Chord::Power => 0,
        Chord::Major => 1,
        Chord::Minor => 2,
        Chord::Sus2 => 3,
        Chord::Sus4 => 4,
        Chord::Diminished => 5,
        Chord::Augmented => 6,
        Chord::Maj7 => 7,
        Chord::Min7 => 8,
        Chord::Dom7 => 9,
        Chord::Dim7 => 10,
        Chord::HalfDim7 => 11,
        Chord::Add9 => 12,
        Chord::Dom9 => 13,
        Chord::Min9 => 14,
    }
}

/// The command-line chord menu lists the voicings in the same order as the
/// host's chord port: choice number k is port value k.
pub proof fn lemma_chord_menu_order(c: Chord)
    ensures
        voicing_index(chord_voicing(c)) == chord_index(c),
{
}

/// The fixed modes play the given note and the tracking modes follow the
/// voice; the chord modes play the chosen chord.
pub proof fn lemma_mode_choice_roots(m: Mode, c: Chord, n: u8)
    ensures
        mode_fixed_root(mode_carrier(m, c, n)) == (if m == Mode::Fixed || m == Mode::FixedChord {
            Some(n)
        } else {
            None
        }),
        m == Mode::Chord ==> mode_carrier(m, c, n) == CarrierMode::Chord(chord_voicing(c)),
        m == Mode::FixedChord ==> (mode_carrier(m, c, n) matches CarrierMode::FixedChord {
            voicing,
            ..
        } && voicing == chord_voicing(c)),
{
}

/// Transposition: a major or minor scale choice rooted at `root` holds
/// pitch class `pc` exactly when the same choice rooted at C holds
/// `pc - root` (modulo 12), and roots an octave apart give the same scale.
pub proof fn lemma_scale_choice_transposes(k: ScaleKind, root: u8, pc: int)
    requires
        0 <= pc < 12,
    ensures
        kind_scale_classes(k, root).contains(pc) == kind_scale_classes(k, 0).contains(
            (pc - root) % 12,
        ),
{
    match k {
        ScaleKind::Chromatic => {
            assert(0 <= (pc - root) % 12 < 12);
        },
        ScaleKind::Major => {
            lemma_transpose((root % 12) as int, major_steps(), pc);
            assert(((pc - (root % 12) as int) % 12) == (pc - root) % 12);
        },
        ScaleKind::Minor => {
            lemma_transpose((root % 12) as int, minor_steps(), pc);
            assert(((pc - (root % 12) as int) % 12) == (pc - root) % 12);
        },
    }
}

/// Every library voicing has exactly one chord choice.
pub proof fn lemma_chord_choice_bijective(a: Chord, b: Chord, v: ChordVoicing)
    ensures
        chord_voicing(a) == chord_voicing(b) ==> a == b,
        exists|c: Chord| chord_voicing(c) == v,
{
    match v {
        ChordVoicing::Power => assert(chord_voicing(Chord::Power) == v),
        ChordVoicing::Major => assert(chord_voicing(Chord::Major) == v),
        ChordVoicing::Minor => assert(chord_voicing(Chord::Minor) == v),
        ChordVoicing::Sus2 => assert(chord_voicing(Chord::Sus2) == v),
        ChordVoicing::Sus4 => assert(chord_voicing(Chord::Sus4) == v),
        ChordVoicing::Diminished => assert(chord_voicing(Chord::Diminished) == v),
        ChordVoicing::Augmented => assert(chord_voicing(Chord::Augmented) == v),
        ChordVoicing::Maj7 => assert(chord_voicing(Chord::Maj7) == v),
        ChordVoicing::Min7 => assert(chord_voicing(Chord::Min7) == v),
        ChordVoicing::Dom7 => assert(chord_voicing(Chord::Dom7) == v),
        ChordVoicing::Dim7 => assert(chord_voicing(Chord::Dim7) == v),
        ChordVoicing::HalfDim7 => assert(chord_voicing(Chord::HalfDim7) == v),
        ChordVoicing::Add9 => assert(chord_voicing(Chord::Add9) == v),
        ChordVoicing::Dom9 => assert(chord_voicing(Chord::Dom9) == v),
        ChordVoicing::Min9 => assert(chord_voicing(Chord::Min9) == v),
    }
}

} // verus!
