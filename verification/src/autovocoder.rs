//! Chord voicings and carrier modes: which notes the carrier oscillator
//! bank plays relative to its root, and where that root comes from.

use vstd::prelude::*;

verus! {

/// Fixed capacity of the carrier oscillator bank. Covers every chord up to
/// ninths.
pub const CARRIER_VOICES: usize = 5;

/// Chord voicing: semitone intervals from the root. Up to five notes fit the
/// oscillator bank; longer patterns get truncated.
#[derive(Clone, Copy, Debug, PartialEq, Eq, Structural)]
pub enum ChordVoicing {
    /// 1 - 5 (0, 7)
    Power,
    /// 1 - 3 - 5 (0, 4, 7)
    Major,
    /// 1 - b3 - 5 (0, 3, 7)
    Minor,
    /// 1 - 2 - 5 (0, 2, 7)
    Sus2,
    /// 1 - 4 - 5 (0, 5, 7)
    Sus4,
    /// 1 - b3 - b5 (0, 3, 6)
    Diminished,
    /// 1 - 3 - #5 (0, 4, 8)
    Augmented,
    /// 1 - 3 - 5 - 7 (0, 4, 7, 11)
    Maj7,
    /// 1 - b3 - 5 - b7 (0, 3, 7, 10)
    Min7,
    /// 1 - 3 - 5 - b7 (0, 4, 7, 10)
    Dom7,
    /// 1 - b3 - b5 - bb7 (0, 3, 6, 9)
    Dim7,
    /// 1 - b3 - b5 - b7 (0, 3, 6, 10)
    HalfDim7,
    /// 1 - 3 - 5 - 9 (0, 4, 7, 14)
    Add9,
    /// 1 - 3 - 5 - b7 - 9 (0, 4, 7, 10, 14)
    Dom9,
    /// 1 - b3 - 5 - b7 - 9 (0, 3, 7, 10, 14)
    Min9,
}

/// Semitone intervals of a voicing, root first.
pub open spec fn voicing_steps(v: ChordVoicing) -> Seq<i8> {
    match v {
        ChordVoicing::Power => seq![0i8, 7],
        ChordVoicing::Major => seq![0i8, 4, 7],
        ChordVoicing::Minor => seq![0i8, 3, 7],
        ChordVoicing::Sus2 => seq![0i8, 2, 7],
        ChordVoicing::Sus4 => seq![0i8, 5, 7],
        ChordVoicing::Diminished => seq![0i8, 3, 6],
        ChordVoicing::Augmented => seq![0i8, 4, 8],
        ChordVoicing::Maj7 => seq![0i8, 4, 7, 11],
        ChordVoicing::Min7 => seq![0i8, 3, 7, 10],
        ChordVoicing::Dom7 => seq![0i8, 4, 7, 10],
        ChordVoicing::Dim7 => seq![0i8, 3, 6, 9],
        ChordVoicing::HalfDim7 => seq![0i8, 3, 6, 10],
        ChordVoicing::Add9 => seq![0i8, 4, 7, 14],
        ChordVoicing::Dom9 => seq![0i8, 4, 7, 10, 14],
        ChordVoicing::Min9 => seq![0i8, 3, 7, 10, 14],
    }
}

/// The host port number of a voicing, in declaration order from 0.
pub open spec fn voicing_index(v: ChordVoicing) -> int {
    match v {
        ChordVoicing::Power => 0,
        ChordVoicing::Major => 1,
        ChordVoicing::Minor => 2,
        ChordVoicing::Sus2 => 3,
        ChordVoicing::Sus4 => 4,
        ChordVoicing::Diminished => 5,
        ChordVoicing::Augmented => 6,
        ChordVoicing::Maj7 => 7,
        ChordVoicing::Min7 => 8,
        ChordVoicing::Dom7 => 9,
        ChordVoicing::Dim7 => 10,
        ChordVoicing::HalfDim7 => 11,
        ChordVoicing::Add9 => 12,
        ChordVoicing::Dom9 => 13,
        ChordVoicing::Min9 => 14,
    }
}

/// The voicing that host port value `i` selects: 0..=14 in declaration
/// order; anything else is Major.
pub open spec fn voicing_for_port(i: int) -> ChordVoicing {
    if i == 0 {
        ChordVoicing::Power
    } else if i == 1 {
        ChordVoicing::Major
    } else if i == 2 {
        ChordVoicing::Minor
    } else if i == 3 {
        ChordVoicing::Sus2
    } else if i == 4 {
        ChordVoicing::Sus4
    } else if i == 5 {
        ChordVoicing::Diminished
    } else if i == 6 {
        ChordVoicing::Augmented
    } else if i == 7 {
        ChordVoicing::Maj7
    } else if i == 8 {
        ChordVoicing::Min7
    } else if i == 9 {
        ChordVoicing::Dom7
    } else if i == 10 {
        ChordVoicing::Dim7
    } else if i == 11 {
        ChordVoicing::HalfDim7
    } else if i == 12 {
        ChordVoicing::Add9
    } else if i == 13 {
        ChordVoicing::Dom9
    } else if i == 14 {
        ChordVoicing::Min9
    } else {
        ChordVoicing::Major
    }
}

impl ChordVoicing {
    /// Semitone intervals from the root, root first.
    pub fn intervals(self) -> (r: Vec<i8>)
        ensures
            r@ == voicing_steps(self),
    {
        match self {
            ChordVoicing::Power => vec![0, 7],
            ChordVoicing::Major => vec![0, 4, 7],
            ChordVoicing::Minor => vec![0, 3, 7],
            ChordVoicing::Sus2 => vec![0, 2, 7],
            ChordVoicing::Sus4 => vec![0, 5, 7],
            ChordVoicing::Diminished => vec![0, 3, 6],
            ChordVoicing::Augmented => vec![0, 4, 8],
            ChordVoicing::Maj7 => vec![0, 4, 7, 11],
            ChordVoicing::Min7 => vec![0, 3, 7, 10],
            ChordVoicing::Dom7 => vec![0, 4, 7, 10],
            ChordVoicing::Dim7 => vec![0, 3, 6, 9],
            ChordVoicing::HalfDim7 => vec![0, 3, 6, 10],
            ChordVoicing::Add9 => vec![0, 4, 7, 14],
            ChordVoicing::Dom9 => vec![0, 4, 7, 10, 14],
            ChordVoicing::Min9 => vec![0, 3, 7, 10, 14],
        }
    }

    /// Host port value to voicing: 0..=14 in declaration order.
    /// Out-of-range clamps to Major.
    pub fn from_int(i: i32) -> (v: Self)
        ensures
            v == voicing_for_port(i as int),
            0 <= i < 15 ==> voicing_index(v) == i,
            !(0 <= i < 15) ==> v == ChordVoicing::Major,
    {
        match i {
            0 => ChordVoicing::Power,
            1 => ChordVoicing::Major,
            2 => ChordVoicing::Minor,
            3 => ChordVoicing::Sus2,
            4 => ChordVoicing::Sus4,
            5 => ChordVoicing::Diminished,
            6 => ChordVoicing::Augmented,
            7 => ChordVoicing::Maj7,
            8 => ChordVoicing::Min7,
            9 => ChordVoicing::Dom7,
            10 => ChordVoicing::Dim7,
            11 => ChordVoicing::HalfDim7,
            12 => ChordVoicing::Add9,
            13 => ChordVoicing::Dom9,
            14 => ChordVoicing::Min9,
            _ => ChordVoicing::Major,
        }
    }
}

/// Every voicing has a port number in 0..15 that selects it, and no two
/// voicings share one: `from_int` reaches each voicing from exactly one
/// number in that range.
pub proof fn lemma_voicing_port_roundtrip(a: ChordVoicing, b: ChordVoicing)
    ensures
        0 <= voicing_index(a) < 15,
        voicing_for_port(voicing_index(a)) == a,
        voicing_index(a) == voicing_index(b) ==> a == b,
{
}

/// Seventh and ninth chords stack on their triads: a dominant or minor
/// seventh adds the flat seventh (10), a major seventh the major seventh
/// (11), the diminished seventh the double-flat seventh (9), the half
/// diminished the flat seventh on the diminished triad, ninths add the ninth
/// (14) on the seventh chord, and add9 adds it on the plain major triad.
/// Every triad but the diminished and augmented ones has the perfect fifth
/// (7), which is also the whole power chord above its root.
pub proof fn lemma_chord_construction()
    ensures
        voicing_steps(ChordVoicing::Dom7) == voicing_steps(ChordVoicing::Major).push(10),
        voicing_steps(ChordVoicing::Maj7) == voicing_steps(ChordVoicing::Major).push(11),
        voicing_steps(ChordVoicing::Min7) == voicing_steps(ChordVoicing::Minor).push(10),
        voicing_steps(ChordVoicing::Dim7) == voicing_steps(ChordVoicing::Diminished).push(9),
        voicing_steps(ChordVoicing::HalfDim7) == voicing_steps(ChordVoicing::Diminished).push(10),
        voicing_steps(ChordVoicing::Dom9) == voicing_steps(ChordVoicing::Dom7).push(14),
        voicing_steps(ChordVoicing::Min9) == voicing_steps(ChordVoicing::Min7).push(14),
        voicing_steps(ChordVoicing::Add9) == voicing_steps(ChordVoicing::Major).push(14),
        voicing_steps(ChordVoicing::Power) == seq![0i8, 7],
        voicing_steps(ChordVoicing::Major)[2] == 7 && voicing_steps(ChordVoicing::Major)[1] == 4,
        voicing_steps(ChordVoicing::Minor)[2] == 7 && voicing_steps(ChordVoicing::Minor)[1] == 3,
        voicing_steps(ChordVoicing::Sus2)[2] == 7 && voicing_steps(ChordVoicing::Sus2)[1] == 2,
        voicing_steps(ChordVoicing::Sus4)[2] == 7 && voicing_steps(ChordVoicing::Sus4)[1] == 5,
        voicing_steps(ChordVoicing::Diminished) == voicing_steps(ChordVoicing::Minor).update(2, 6),
        voicing_steps(ChordVoicing::Augmented) == voicing_steps(ChordVoicing::Major).update(2, 8),
{
    assert(voicing_steps(ChordVoicing::Dom7) =~= voicing_steps(ChordVoicing::Major).push(10));
    assert(voicing_steps(ChordVoicing::Maj7) =~= voicing_steps(ChordVoicing::Major).push(11));
    assert(voicing_steps(ChordVoicing::Min7) =~= voicing_steps(ChordVoicing::Minor).push(10));
    assert(voicing_steps(ChordVoicing::Dim7) =~= voicing_steps(ChordVoicing::Diminished).push(9));
    assert(voicing_steps(ChordVoicing::HalfDim7) =~= voicing_steps(ChordVoicing::Diminished).push(
        10,
    ));
    assert(voicing_steps(ChordVoicing::Dom9) =~= voicing_steps(ChordVoicing::Dom7).push(14));
    assert(voicing_steps(ChordVoicing::Min9) =~= voicing_steps(ChordVoicing::Min7).push(14));
    assert(voicing_steps(ChordVoicing::Add9) =~= voicing_steps(ChordVoicing::Major).push(14));
    assert(voicing_steps(ChordVoicing::Diminished) =~= voicing_steps(ChordVoicing::Minor).update(
        2,
        6,
    ));
    assert(voicing_steps(ChordVoicing::Augmented) =~= voicing_steps(ChordVoicing::Major).update(
        2,
        8,
    ));
}

/// Every voicing starts at its root (interval 0), rises strictly, and fits
/// the oscillator bank: between two and `CARRIER_VOICES` notes.
pub proof fn lemma_voicing_shape(v: ChordVoicing)
    ensures
        2 <= voicing_steps(v).len() <= CARRIER_VOICES,
        voicing_steps(v)[0] == 0,
        forall|i: int, j: int|
            0 <= i < j < voicing_steps(v).len() ==> voicing_steps(v)[i] < voicing_steps(v)[j],
{
}

/// Carrier voicing mode.
#[derive(Clone, Copy, Debug, PartialEq, Eq, Structural)]
pub enum CarrierMode {
    /// One saw at the quantized pitch of the input voice.
    Mono,
    /// A chord whose root tracks the input voice, spelled by the voicing.
    Chord(ChordVoicing),
    /// Single saw at a fixed MIDI note; ignores input pitch.
    Fixed { midi: u8 },
    /// A chord rooted at a fixed MIDI note: the classic Soundwave sound.
    FixedChord { midi: u8, voicing: ChordVoicing },
}

/// The intervals that a mode asks of the oscillator bank before the bank's
/// capacity is applied: a single root note, or the chord's intervals.
pub open spec fn mode_steps(m: CarrierMode) -> Seq<i8> {
    match m {
        CarrierMode::Mono => seq![0i8],
        CarrierMode::Fixed { .. } => seq![0i8],
        CarrierMode::Chord(v) => voicing_steps(v),
        CarrierMode::FixedChord { voicing, .. } => voicing_steps(voicing),
    }
}

/// The intervals the oscillator bank plays: those of the mode, cut to the
/// first `CARRIER_VOICES`.
pub open spec fn bank_steps(m: CarrierMode) -> Seq<i8> {
    let s = mode_steps(m);
    if s.len() <= CARRIER_VOICES {
        s
    } else {
        s.take(CARRIER_VOICES as int)
    }
}

/// The fixed MIDI root of a mode, or `None` when the root tracks the voice.
pub open spec fn mode_fixed_root(m: CarrierMode) -> Option<u8> {
    match m {
        CarrierMode::Mono => None,
        CarrierMode::Chord(_) => None,
        CarrierMode::Fixed { midi } => Some(midi),
        CarrierMode::FixedChord { midi, .. } => Some(midi),
    }
}

impl CarrierMode {
    /// A major triad whose root tracks the voice.
    pub fn major_triad() -> (m: Self)
        ensures
            m == CarrierMode::Chord(ChordVoicing::Major),
    {
        CarrierMode::Chord(ChordVoicing::Major)
    }

    /// A minor triad whose root tracks the voice.
    pub fn minor_triad() -> (m: Self)
        ensures
            m == CarrierMode::Chord(ChordVoicing::Minor),
    {
        CarrierMode::Chord(ChordVoicing::Minor)
    }

    /// Semitone intervals, root first, of the voices that the oscillator
    /// bank runs in this mode: one root voice for the single-saw modes, the
    /// chord's intervals (at most `CARRIER_VOICES` of them) otherwise.
    pub fn voice_intervals(self) -> (r: Vec<i8>)
        ensures
            r@ == bank_steps(self),
    {
        let all: Vec<i8> = match self {
            CarrierMode::Mono | CarrierMode::Fixed { .. } => vec![0],
            CarrierMode::Chord(v) | CarrierMode::FixedChord { voicing: v, .. } => v.intervals(),
        };
        let count = if all.len() < CARRIER_VOICES {
            all.len()
        } else {
            CARRIER_VOICES
        };
        let mut r: Vec<i8> = Vec::new();
        let mut i: usize = 0;
        while i < count
            invariant
                count <= all.len(),
                all@ == mode_steps(self),
                count == (if all.len() < CARRIER_VOICES { all.len() } else { CARRIER_VOICES }),
                i <= count,
                r@ == all@.take(i as int),
            decreases count - i,
        {
            r.push(all[i]);
            i = i + 1;
            assert(r@ =~= all@.take(i as int));
        }
        assert(r@ =~= bank_steps(self));
        r
    }

    /// The MIDI note that the carrier root is pinned to, or `None` when the
    /// root follows the detected (and quantized) pitch of the voice.
    pub fn fixed_root(self) -> (r: Option<u8>)
        ensures
            r == mode_fixed_root(self),
    {
        match self {
            CarrierMode::Mono | CarrierMode::Chord(_) => None,
            CarrierMode::Fixed { midi } | CarrierMode::FixedChord { midi, .. } => Some(midi),
        }
    }
}

/// The oscillator bank always runs between one and `CARRIER_VOICES`
/// voices, the first of them at the root, and a chord mode plays every
/// interval of its voicing.
pub proof fn lemma_bank_layout(m: CarrierMode)
    ensures
        1 <= bank_steps(m).len() <= CARRIER_VOICES,
        bank_steps(m)[0] == 0,
        bank_steps(m) == mode_steps(m),
{
    match m {
        CarrierMode::Chord(v) => lemma_voicing_shape(v),
        CarrierMode::FixedChord { voicing, .. } => lemma_voicing_shape(voicing),
        _ => {},
    }
}

} // verus!
