//! Musical scales as bitmasks over the twelve pitch classes, and the
//! nearest-note search that snaps a detected pitch into a scale.

use vstd::prelude::*;

verus! {

/// True when bit `pc` of `mask` is set.
pub open spec fn mask_has(mask: u16, pc: int) -> bool {
    (mask >> (pc as u16)) & 1u16 == 1u16
}

/// The pitch classes (0 = C, 1 = C#, ..., 11 = B) whose bits are set.
pub open spec fn mask_classes(mask: u16) -> Set<int> {
    Set::new(|pc: int| 0 <= pc < 12 && mask_has(mask, pc))
}

/// The pitch classes reached by stepping each of `steps` semitones up from
/// `root`, taken modulo 12.
pub open spec fn rotated_classes(root: int, steps: Seq<u8>) -> Set<int> {
    Set::new(
        |pc: int|
            0 <= pc < 12 && exists|k: int| 0 <= k < steps.len() && (root + steps[k]) % 12 == pc,
    )
}

/// Semitone steps of the major scale.
pub open spec fn major_steps() -> Seq<u8> {
    seq![0u8, 2, 4, 5, 7, 9, 11]
}

/// Semitone steps of the natural minor scale.
pub open spec fn minor_steps() -> Seq<u8> {
    seq![0u8, 2, 3, 5, 7, 8, 10]
}

/// Semitone steps of the dorian mode (minor with a raised sixth).
pub open spec fn dorian_steps() -> Seq<u8> {
    seq![0u8, 2, 3, 5, 7, 9, 10]
}

/// Semitone steps of the phrygian mode (minor with a lowered second).
pub open spec fn phrygian_steps() -> Seq<u8> {
    seq![0u8, 1, 3, 5, 7, 8, 10]
}

/// Semitone steps of the lydian mode (major with a raised fourth).
pub open spec fn lydian_steps() -> Seq<u8> {
    seq![0u8, 2, 4, 6, 7, 9, 11]
}

/// Semitone steps of the mixolydian mode (major with a lowered seventh).
pub open spec fn mixolydian_steps() -> Seq<u8> {
    seq![0u8, 2, 4, 5, 7, 9, 10]
}

/// Semitone steps of the harmonic minor scale (minor with a raised seventh).
pub open spec fn harmonic_minor_steps() -> Seq<u8> {
    seq![0u8, 2, 3, 5, 7, 8, 11]
}

/// Semitone steps of the major pentatonic scale.
pub open spec fn major_pentatonic_steps() -> Seq<u8> {
    seq![0u8, 2, 4, 7, 9]
}

/// Semitone steps of the minor pentatonic scale.
pub open spec fn minor_pentatonic_steps() -> Seq<u8> {
    seq![0u8, 3, 5, 7, 10]
}

/// Semitone steps of the blues scale (minor pentatonic plus the blue note).
pub open spec fn blues_steps() -> Seq<u8> {
    seq![0u8, 3, 5, 6, 7, 10]
}

/// All twelve pitch classes.
pub open spec fn chromatic_classes() -> Set<int> {
    Set::new(|pc: int| 0 <= pc < 12)
}

/// The pitch classes of the scale that the host-facing number `kind` names,
/// rooted at `root`: 1 major, 2 minor, 3 dorian, 4 phrygian, 5 lydian,
/// 6 mixolydian, 7 harmonic minor, 8 major pentatonic, 9 minor pentatonic,
/// 10 blues; any other number is the chromatic scale.
pub open spec fn kind_classes(kind: int, root: int) -> Set<int> {
    if kind == 1 {
        rotated_classes(root, major_steps())
    } else if kind == 2 {
        rotated_classes(root, minor_steps())
    } else if kind == 3 {
        rotated_classes(root, dorian_steps())
    } else if kind == 4 {
        rotated_classes(root, phrygian_steps())
    } else if kind == 5 {
        rotated_classes(root, lydian_steps())
    } else if kind == 6 {
        rotated_classes(root, mixolydian_steps())
    } else if kind == 7 {
        rotated_classes(root, harmonic_minor_steps())
    } else if kind == 8 {
        rotated_classes(root, major_pentatonic_steps())
    } else if kind == 9 {
        rotated_classes(root, minor_pentatonic_steps())
    } else if kind == 10 {
        rotated_classes(root, blues_steps())
    } else {
        chromatic_classes()
    }
}

/// Distance in semitones between two notes.
pub open spec fn note_distance(a: int, b: int) -> int {
    if a >= b {
        a - b
    } else {
        b - a
    }
}

/// Note `n` (a MIDI note number) is playable in a scale with pitch classes
/// `classes`: it is not negative and its pitch class is in the scale.
pub open spec fn in_scale(classes: Set<int>, n: int) -> bool {
    n >= 0 && classes.contains(n % 12)
}

/// `c` is the note that `midi` snaps to: in the scale, at most six
/// semitones away, no in-scale note is closer, and of two equally close
/// notes it is the lower.
pub open spec fn is_nearest(classes: Set<int>, midi: int, c: int) -> bool {
    &&& in_scale(classes, c)
    &&& note_distance(c, midi) <= 6
    &&& forall|n: int|
        in_scale(classes, n) ==> note_distance(n, midi) > note_distance(c, midi) || (
        note_distance(n, midi) == note_distance(c, midi) && n >= c)
}

/// No in-scale note lies within six semitones of `midi`.
pub open spec fn none_near(classes: Set<int>, midi: int) -> bool {
    forall|n: int| in_scale(classes, n) ==> note_distance(n, midi) > 6
}

/// `c` is the note that a pitch `cents` hundredths of a semitone above MIDI
/// note 0 snaps to: in the scale, at most six and a half semitones from the
/// pitch, no in-scale note is closer to it, and of two equally close notes
/// it is the lower.
pub open spec fn is_nearest_cents(classes: Set<int>, cents: int, c: int) -> bool {
    &&& in_scale(classes, c)
    &&& note_distance(100 * c, cents) <= 650
    &&& forall|n: int|
        in_scale(classes, n) ==> note_distance(100 * n, cents) > note_distance(100 * c, cents) || (
        note_distance(100 * n, cents) == note_distance(100 * c, cents) && n >= c)
}

/// No in-scale note lies within six and a half semitones of the pitch
/// `cents` hundredths of a semitone above MIDI note 0.
pub open spec fn none_near_cents(classes: Set<int>, cents: int) -> bool {
    forall|n: int| in_scale(classes, n) ==> note_distance(100 * n, cents) > 650
}

/// A musical scale as a bitmask over the 12 pitch classes (C=0, C#=1, ...).
#[derive(Clone, Copy, Debug)]
pub struct Scale {
    mask: u16,
}

impl Scale {
    /// Only the twelve pitch-class bits are ever set.
    #[verifier::type_invariant]
    spec fn wf(self) -> bool {
        self.mask < 0x1000
    }

    /// The set of pitch classes in the scale.
    pub closed spec fn classes(self) -> Set<int> {
        mask_classes(self.mask)
    }

    /// Every pitch class.
    pub fn chromatic() -> (s: Self)
        ensures
            s.classes() == chromatic_classes(),
    {
        let s = Self { mask: 0x0FFF };
        proof {
            assert forall|pc: int| 0 <= pc < 12 implies mask_has(0x0FFFu16, pc) by {
                lemma_full_mask(pc as u16);
            }
            assert(s.classes() =~= chromatic_classes());
        }
        s
    }

    /// The scale holding each of `classes`, taken modulo 12.
    pub fn from_pitch_classes(classes: &[u8]) -> (s: Self)
        ensures
            s.classes() == rotated_classes(0, classes@),
    {
        Self::from_pitch_classes_rotated(0, classes)
    }

    /// Major: 0 2 4 5 7 9 11 above `root_pc`.
    pub fn major(root_pc: u8) -> (s: Self)
        ensures
            s.classes() == rotated_classes(root_pc as int, major_steps()),
    {
        let steps: [u8; 7] = [0, 2, 4, 5, 7, 9, 11];
        assert(steps@ == major_steps());
        Self::from_pitch_classes_rotated(root_pc, &steps)
    }

    /// Natural minor: 0 2 3 5 7 8 10 above `root_pc`.
    pub fn minor(root_pc: u8) -> (s: Self)
        ensures
            s.classes() == rotated_classes(root_pc as int, minor_steps()),
    {
        let steps: [u8; 7] = [0, 2, 3, 5, 7, 8, 10];
        assert(steps@ == minor_steps());
        Self::from_pitch_classes_rotated(root_pc, &steps)
    }

    /// Dorian: 0 2 3 5 7 9 10 above `root_pc`. Smooth, jazzy.
    pub fn dorian(root_pc: u8) -> (s: Self)
        ensures
            s.classes() == rotated_classes(root_pc as int, dorian_steps()),
    {
        let steps: [u8; 7] = [0, 2, 3, 5, 7, 9, 10];
        assert(steps@ == dorian_steps());
        Self::from_pitch_classes_rotated(root_pc, &steps)
    }

    /// Phrygian: 0 1 3 5 7 8 10 above `root_pc`. Spanish / metal.
    pub fn phrygian(root_pc: u8) -> (s: Self)
        ensures
            s.classes() == rotated_classes(root_pc as int, phrygian_steps()),
    {
        let steps: [u8; 7] = [0, 1, 3, 5, 7, 8, 10];
        assert(steps@ == phrygian_steps());
        Self::from_pitch_classes_rotated(root_pc, &steps)
    }

    /// Lydian: 0 2 4 6 7 9 11 above `root_pc`. Dreamy / sci-fi.
    pub fn lydian(root_pc: u8) -> (s: Self)
        ensures
            s.classes() == rotated_classes(root_pc as int, lydian_steps()),
    {
        let steps: [u8; 7] = [0, 2, 4, 6, 7, 9, 11];
        assert(steps@ == lydian_steps());
        Self::from_pitch_classes_rotated(root_pc, &steps)
    }

    /// Mixolydian: 0 2 4 5 7 9 10 above `root_pc`. Bluesy / classic rock.
    pub fn mixolydian(root_pc: u8) -> (s: Self)
        ensures
            s.classes() == rotated_classes(root_pc as int, mixolydian_steps()),
    {
        let steps: [u8; 7] = [0, 2, 4, 5, 7, 9, 10];
        assert(steps@ == mixolydian_steps());
        Self::from_pitch_classes_rotated(root_pc, &steps)
    }

    /// Harmonic minor: 0 2 3 5 7 8 11 above `root_pc`. Eastern / dramatic.
    pub fn harmonic_minor(root_pc: u8) -> (s: Self)
        ensures
            s.classes() == rotated_classes(root_pc as int, harmonic_minor_steps()),
    {
        let steps: [u8; 7] = [0, 2, 3, 5, 7, 8, 11];
        assert(steps@ == harmonic_minor_steps());
        Self::from_pitch_classes_rotated(root_pc, &steps)
    }

    /// Major pentatonic: 0 2 4 7 9 above `root_pc`.
    pub fn major_pentatonic(root_pc: u8) -> (s: Self)
        ensures
            s.classes() == rotated_classes(root_pc as int, major_pentatonic_steps()),
    {
        let steps: [u8; 5] = [0, 2, 4, 7, 9];
        assert(steps@ == major_pentatonic_steps());
        Self::from_pitch_classes_rotated(root_pc, &steps)
    }

    /// Minor pentatonic: 0 3 5 7 10 above `root_pc`.
    pub fn minor_pentatonic(root_pc: u8) -> (s: Self)
        ensures
            s.classes() == rotated_classes(root_pc as int, minor_pentatonic_steps()),
    {
        let steps: [u8; 5] = [0, 3, 5, 7, 10];
        assert(steps@ == minor_pentatonic_steps());
        Self::from_pitch_classes_rotated(root_pc, &steps)
    }

    /// Blues: 0 3 5 6 7 10 above `root_pc`.
    pub fn blues(root_pc: u8) -> (s: Self)
        ensures
            s.classes() == rotated_classes(root_pc as int, blues_steps()),
    {
        let steps: [u8; 6] = [0, 3, 5, 6, 7, 10];
        assert(steps@ == blues_steps());
        Self::from_pitch_classes_rotated(root_pc, &steps)
    }

    /// Host port value to scale at the given root pitch class.
    /// 0=Chromatic, 1=Major, 2=Minor, 3=Dorian, 4=Phrygian, 5=Lydian,
    /// 6=Mixolydian, 7=Harmonic Minor, 8=Major Pentatonic,
    /// 9=Minor Pentatonic, 10=Blues. Out-of-range falls back to Chromatic.
    pub fn from_int(scale_kind: i32, root_pc: u8) -> (s: Self)
        ensures
            s.classes() == kind_classes(scale_kind as int, root_pc as int),
            scale_kind == 1 ==> s.classes() == rotated_classes(root_pc as int, major_steps()),
            scale_kind == 2 ==> s.classes() == rotated_classes(root_pc as int, minor_steps()),
            scale_kind == 3 ==> s.classes() == rotated_classes(root_pc as int, dorian_steps()),
            scale_kind == 4 ==> s.classes() == rotated_classes(root_pc as int, phrygian_steps()),
            scale_kind == 5 ==> s.classes() == rotated_classes(root_pc as int, lydian_steps()),
            scale_kind == 6 ==> s.classes() == rotated_classes(root_pc as int, mixolydian_steps()),
            scale_kind == 7 ==> s.classes() == rotated_classes(root_pc as int, harmonic_minor_steps()),
            scale_kind == 8 ==> s.classes() == rotated_classes(root_pc as int, major_pentatonic_steps()),
            scale_kind == 9 ==> s.classes() == rotated_classes(root_pc as int, minor_pentatonic_steps()),
            scale_kind == 10 ==> s.classes() == rotated_classes(root_pc as int, blues_steps()),
            !(1 <= scale_kind <= 10) ==> s.classes() == chromatic_classes(),
    {
        match scale_kind {
            1 => Self::major(root_pc),
            2 => Self::minor(root_pc),
            3 => Self::dorian(root_pc),
            4 => Self::phrygian(root_pc),
            5 => Self::lydian(root_pc),
            6 => Self::mixolydian(root_pc),
            7 => Self::harmonic_minor(root_pc),
            8 => Self::major_pentatonic(root_pc),
            9 => Self::minor_pentatonic(root_pc),
            10 => Self::blues(root_pc),
            _ => Self::chromatic(),
        }
    }

    fn from_pitch_classes_rotated(root: u8, steps: &[u8]) -> (s: Self)
        ensures
            s.classes() == rotated_classes(root as int, steps@),
    {
        let mut mask: u16 = 0;
        let mut i: usize = 0;
        proof {
            lemma_empty_mask();
            assert(rotated_classes(root as int, steps@.take(0)) =~= Set::empty());
        }
        while i < steps.len()
            invariant
                i <= steps.len(),
                mask < 0x1000,
                mask_classes(mask) == rotated_classes(root as int, steps@.take(i as int)),
            decreases steps.len() - i,
        {
            let pc: u16 = (root as u16 + steps[i] as u16) % 12;
            proof {
                lemma_set_bit(mask, pc);
                assert(rotated_classes(root as int, steps@.take(i + 1)) =~= rotated_classes(
                    root as int,
                    steps@.take(i as int),
                ).insert(pc as int)) by {
                    assert(steps@.take(i + 1)[i as int] == steps@[i as int]);
                    assert forall|k: int| 0 <= k < i implies steps@.take(i + 1)[k] == steps@.take(
                        i as int,
                    )[k] by {}
                }
            }
            mask = mask | (1u16 << pc);
            i = i + 1;
        }
        assert(steps@.take(steps.len() as int) =~= steps@);
        Self { mask }
    }

    /// Whether pitch class `pc % 12` belongs to the scale.
    pub fn contains(&self, pc: u8) -> (r: bool)
        ensures
            r == self.classes().contains((pc % 12) as int),
    {
        let k = (pc % 12) as u16;
        (self.mask >> k) & 1 == 1
    }

    /// The in-scale note nearest to a pitch given in cents above MIDI note 0
    /// (6040 is 40 cents above middle C), measured to the exact pitch:
    /// notes up to six and a half semitones away are considered, and the
    /// lower of two equally close notes wins; `None` when no note of the
    /// scale lies that close.
    pub fn nearest_note_cents(&self, cents: i32) -> (r: Option<i64>)
        ensures
            match r {
                Some(c) => is_nearest_cents(self.classes(), cents as int, c as int),
                None => none_near_cents(self.classes(), cents as int),
            },
    {
        let p = cents as i64;
        let start: i64 = if p - 650 <= 0 {
            0
        } else {
            (p - 650 + 99) / 100
        };
        let end: i64 = if p + 650 < 0 {
            -1
        } else {
            (p + 650) / 100
        };
        let mut best: Option<i64> = None;
        let mut best_d: i64 = 0;
        let mut n: i64 = start;
        while n <= end
            invariant
                p == cents,
                0 <= start <= n,
                n <= end + 1 || end < start,
                start == (if p - 650 <= 0 {
                    0
                } else {
                    (p - 650 + 99) / 100
                }),
                end == (if p + 650 < 0 {
                    -1
                } else {
                    (p + 650) / 100
                }),
                match best {
                    Some(b) => {
                        &&& in_scale(self.classes(), b as int)
                        &&& start <= b < n
                        &&& best_d == note_distance(100 * b, p as int)
                        &&& best_d <= 650
                        &&& forall|m: int|
                            start <= m < n && in_scale(self.classes(), m) ==> note_distance(
                                100 * m,
                                p as int,
                            ) > best_d || (note_distance(100 * m, p as int) == best_d && m >= b)
                    },
                    None => forall|m: int| start <= m < n ==> !in_scale(self.classes(), m),
                },
            decreases end + 1 - n,
        {
            if self.contains((n % 12) as u8) {
                let d = if 100 * n >= p {
                    100 * n - p
                } else {
                    p - 100 * n
                };
                let better = match best {
                    Some(_) => d < best_d,
                    None => true,
                };
                if better {
                    best = Some(n);
                    best_d = d;
                }
            }
            n = n + 1;
        }
        proof {
            match best {
                Some(b) => {
                    assert forall|m: int| in_scale(self.classes(), m) implies note_distance(
                        100 * m,
                        p as int,
                    ) > note_distance(100 * b, p as int) || (note_distance(100 * m, p as int)
                        == note_distance(100 * b, p as int) && m >= b) by {
                        if note_distance(100 * m, p as int) <= 650 {
                            assert(start <= m <= end);
                        }
                    }
                },
                None => {
                    assert forall|m: int| in_scale(self.classes(), m) implies note_distance(
                        100 * m,
                        p as int,
                    ) > 650 by {
                        if note_distance(100 * m, p as int) <= 650 {
                            assert(start <= m <= end);
                        }
                    }
                },
            }
        }
        best
    }

    /// The in-scale note nearest to MIDI note `midi`, searching at most six
    /// semitones either way and preferring the lower of two equally close
    /// notes; `None` when no note of the scale lies that close.
    pub fn nearest_note(&self, midi: i32) -> (r: Option<i64>)
        ensures
            match r {
                Some(c) => is_nearest(self.classes(), midi as int, c as int),
                None => none_near(self.classes(), midi as int),
            },
    {
        let m = midi as i64;
        let mut d: i64 = 0;
        while d <= 6
            invariant
                0 <= d <= 7,
                m == midi,
                forall|n: int|
                    in_scale(self.classes(), n) ==> #[trigger] note_distance(n, m as int) >= d,
            decreases 7 - d,
        {
            let lo = m - d;
            if lo >= 0 && self.contains((lo % 12) as u8) {
                return Some(lo);
            }
            let hi = m + d;
            if hi >= 0 && self.contains((hi % 12) as u8) {
                return Some(hi);
            }
            proof {
                assert forall|n: int| in_scale(self.classes(), n) implies #[trigger] note_distance(
                    n,
                    m as int,
                ) >= d + 1 by {
                    if note_distance(n, m as int) == d {
                        assert(n == lo || n == hi);
                    }
                }
            }
            d = d + 1;
        }
        None
    }
}

/// Transposition: a scale built on `root` holds pitch class `pc` exactly
/// when the same steps built on C hold `pc - root` (modulo 12).
pub proof fn lemma_transpose(root: int, steps: Seq<u8>, pc: int)
    requires
        0 <= pc < 12,
    ensures
        rotated_classes(root, steps).contains(pc) == rotated_classes(0, steps).contains(
            (pc - root) % 12,
        ),
{
    let q = (pc - root) % 12;
    if rotated_classes(root, steps).contains(pc) {
        let k = choose|k: int| 0 <= k < steps.len() && (root + steps[k]) % 12 == pc;
        assert((0 + steps[k]) % 12 == q);
    }
    if rotated_classes(0, steps).contains(q) {
        let k = choose|k: int| 0 <= k < steps.len() && (0 + steps[k]) % 12 == q;
        assert((root + steps[k]) % 12 == pc);
    }
}

/// On whole notes, snapping a pitch in cents agrees with snapping the note.
pub proof fn lemma_whole_note_cents(classes: Set<int>, midi: int, c: int)
    ensures
        is_nearest_cents(classes, 100 * midi, c) == is_nearest(classes, midi, c),
        none_near_cents(classes, 100 * midi) == none_near(classes, midi),
{
    assert(note_distance(100 * c, 100 * midi) == 100 * note_distance(c, midi));
    assert forall|n: int| #[trigger] note_distance(100 * n, 100 * midi) == 100 * note_distance(
        n,
        midi,
    ) by {}
}

/// Transposition of every scale kind: the scale of kind `kind` rooted at
/// `root` holds pitch class `pc` exactly when the same kind rooted at C
/// holds `pc - root` (modulo 12). Shifting the root by one semitone shifts
/// every pitch class by one.
pub proof fn lemma_kind_transpose(kind: int, root: int, pc: int)
    requires
        0 <= pc < 12,
    ensures
        kind_classes(kind, root).contains(pc) == kind_classes(kind, 0).contains((pc - root) % 12),
        kind_classes(kind, root).contains(pc) == kind_classes(kind, root + 1).contains(
            (pc + 1) % 12,
        ),
{
    if 1 <= kind <= 10 {
        let steps = if kind == 1 {
            major_steps()
        } else if kind == 2 {
            minor_steps()
        } else if kind == 3 {
            dorian_steps()
        } else if kind == 4 {
            phrygian_steps()
        } else if kind == 5 {
            lydian_steps()
        } else if kind == 6 {
            mixolydian_steps()
        } else if kind == 7 {
            harmonic_minor_steps()
        } else if kind == 8 {
            major_pentatonic_steps()
        } else if kind == 9 {
            minor_pentatonic_steps()
        } else {
            blues_steps()
        };
        assert(kind_classes(kind, root) == rotated_classes(root, steps));
        assert(kind_classes(kind, 0) == rotated_classes(0, steps));
        assert(kind_classes(kind, root + 1) == rotated_classes(root + 1, steps));
        lemma_transpose(root, steps, pc);
        let q = (pc + 1) % 12;
        lemma_transpose(root + 1, steps, q);
        assert((q - (root + 1)) % 12 == (pc - root) % 12);
    } else {
        assert(0 <= (pc + 1) % 12 < 12);
        assert(0 <= (pc - root) % 12 < 12);
    }
}

/// The church modes are rotations of the major scale: natural minor starts
/// on its sixth degree, dorian on its second, phrygian on its third, lydian
/// on its fourth and mixolydian on its fifth. Likewise the minor pentatonic
/// is the major pentatonic started on its fifth note (three semitones up),
/// and the blues scale is the minor pentatonic plus the flat fifth.
pub proof fn lemma_modes_of_major(root: int)
    ensures
        rotated_classes(root, minor_steps()) == rotated_classes(root + 3, major_steps()),
        rotated_classes(root, dorian_steps()) == rotated_classes(root - 2, major_steps()),
        rotated_classes(root, phrygian_steps()) == rotated_classes(root - 4, major_steps()),
        rotated_classes(root, lydian_steps()) == rotated_classes(root - 5, major_steps()),
        rotated_classes(root, mixolydian_steps()) == rotated_classes(root - 7, major_steps()),
        rotated_classes(root, minor_pentatonic_steps()) == rotated_classes(
            root + 3,
            major_pentatonic_steps(),
        ),
        rotated_classes(root, blues_steps()) == rotated_classes(
            root,
            minor_pentatonic_steps(),
        ).insert((root + 6) % 12),
{
    lemma_rotation_minor(root);
    lemma_rotation_dorian(root);
    lemma_rotation_phrygian(root);
    lemma_rotation_lydian(root);
    lemma_rotation_mixolydian(root);
    lemma_rotation_minor_pentatonic(root);
    let b = blues_steps();
    let m = minor_pentatonic_steps();
    assert forall|pc: int| #[trigger]
        rotated_classes(root, b).contains(pc) == rotated_classes(root, m).insert(
            (root + 6) % 12,
        ).contains(pc) by {
        if rotated_classes(root, b).contains(pc) {
            let k = choose|k: int| 0 <= k < b.len() && (root + b[k]) % 12 == pc;
            if k == 3 {
            } else if k < 3 {
                assert((root + m[k]) % 12 == pc);
            } else {
                assert((root + m[k - 1]) % 12 == pc);
            }
        }
        if rotated_classes(root, m).contains(pc) {
            let k = choose|k: int| 0 <= k < m.len() && (root + m[k]) % 12 == pc;
            if k < 3 {
                assert((root + b[k]) % 12 == pc);
            } else {
                assert((root + b[k + 1]) % 12 == pc);
            }
        }
        if pc == (root + 6) % 12 {
            assert((root + b[3]) % 12 == pc);
        }
    }
    assert(rotated_classes(root, b) =~= rotated_classes(root, m).insert((root + 6) % 12));
}

proof fn lemma_rotation_minor(root: int)
    ensures
        rotated_classes(root, minor_steps()) == rotated_classes(root + 3, major_steps()),
{
    let s1 = minor_steps();
    let s2 = major_steps();
    let to = seq![5int, 6, 0, 1, 2, 3, 4];
    let back = seq![2int, 3, 4, 5, 6, 0, 1];
    assert forall|k: int| 0 <= k < s1.len() implies 0 <= #[trigger] to[k] < s2.len() && (root
        + s1[k]) % 12 == (root + 3 + s2[to[k]]) % 12 by {
        assert(k == 0 || k == 1 || k == 2 || k == 3 || k == 4 || k == 5 || k == 6);
    }
    assert forall|j: int| 0 <= j < s2.len() implies 0 <= #[trigger] back[j] < s1.len() && (root
        + 3 + s2[j]) % 12 == (root + s1[back[j]]) % 12 by {
        assert(j == 0 || j == 1 || j == 2 || j == 3 || j == 4 || j == 5 || j == 6);
    }
    lemma_same_classes(root, s1, root + 3, s2, to, back);
}

proof fn lemma_rotation_dorian(root: int)
    ensures
        rotated_classes(root, dorian_steps()) == rotated_classes(root - 2, major_steps()),
{
    let s1 = dorian_steps();
    let s2 = major_steps();
    let to = seq![1int, 2, 3, 4, 5, 6, 0];
    let back = seq![6int, 0, 1, 2, 3, 4, 5];
    assert forall|k: int| 0 <= k < s1.len() implies 0 <= #[trigger] to[k] < s2.len() && (root
        + s1[k]) % 12 == (root - 2 + s2[to[k]]) % 12 by {
        assert(k == 0 || k == 1 || k == 2 || k == 3 || k == 4 || k == 5 || k == 6);
    }
    assert forall|j: int| 0 <= j < s2.len() implies 0 <= #[trigger] back[j] < s1.len() && (root
        - 2 + s2[j]) % 12 == (root + s1[back[j]]) % 12 by {
        assert(j == 0 || j == 1 || j == 2 || j == 3 || j == 4 || j == 5 || j == 6);
    }
    lemma_same_classes(root, s1, root - 2, s2, to, back);
}

proof fn lemma_rotation_phrygian(root: int)
    ensures
        rotated_classes(root, phrygian_steps()) == rotated_classes(root - 4, major_steps()),
{
    let s1 = phrygian_steps();
    let s2 = major_steps();
    let to = seq![2int, 3, 4, 5, 6, 0, 1];
    let back = seq![5int, 6, 0, 1, 2, 3, 4];
    assert forall|k: int| 0 <= k < s1.len() implies 0 <= #[trigger] to[k] < s2.len() && (root
        + s1[k]) % 12 == (root - 4 + s2[to[k]]) % 12 by {
        assert(k == 0 || k == 1 || k == 2 || k == 3 || k == 4 || k == 5 || k == 6);
    }
    assert forall|j: int| 0 <= j < s2.len() implies 0 <= #[trigger] back[j] < s1.len() && (root
        - 4 + s2[j]) % 12 == (root + s1[back[j]]) % 12 by {
        assert(j == 0 || j == 1 || j == 2 || j == 3 || j == 4 || j == 5 || j == 6);
    }
    lemma_same_classes(root, s1, root - 4, s2, to, back);
}

proof fn lemma_rotation_lydian(root: int)
    ensures
        rotated_classes(root, lydian_steps()) == rotated_classes(root - 5, major_steps()),
{
    let s1 = lydian_steps();
    let s2 = major_steps();
    let to = seq![3int, 4, 5, 6, 0, 1, 2];
    let back = seq![4int, 5, 6, 0, 1, 2, 3];
    assert forall|k: int| 0 <= k < s1.len() implies 0 <= #[trigger] to[k] < s2.len() && (root
        + s1[k]) % 12 == (root - 5 + s2[to[k]]) % 12 by {
        assert(k == 0 || k == 1 || k == 2 || k == 3 || k == 4 || k == 5 || k == 6);
    }
    assert forall|j: int| 0 <= j < s2.len() implies 0 <= #[trigger] back[j] < s1.len() && (root
        - 5 + s2[j]) % 12 == (root + s1[back[j]]) % 12 by {
        assert(j == 0 || j == 1 || j == 2 || j == 3 || j == 4 || j == 5 || j == 6);
    }
    lemma_same_classes(root, s1, root - 5, s2, to, back);
}

proof fn lemma_rotation_mixolydian(root: int)
    ensures
        rotated_classes(root, mixolydian_steps()) == rotated_classes(root - 7, major_steps()),
{
    let s1 = mixolydian_steps();
    let s2 = major_steps();
    let to = seq![4int, 5, 6, 0, 1, 2, 3];
    let back = seq![3int, 4, 5, 6, 0, 1, 2];
    assert forall|k: int| 0 <= k < s1.len() implies 0 <= #[trigger] to[k] < s2.len() && (root
        + s1[k]) % 12 == (root - 7 + s2[to[k]]) % 12 by {
        assert(k == 0 || k == 1 || k == 2 || k == 3 || k == 4 || k == 5 || k == 6);
    }
    assert forall|j: int| 0 <= j < s2.len() implies 0 <= #[trigger] back[j] < s1.len() && (root
        - 7 + s2[j]) % 12 == (root + s1[back[j]]) % 12 by {
        assert(j == 0 || j == 1 || j == 2 || j == 3 || j == 4 || j == 5 || j == 6);
    }
    lemma_same_classes(root, s1, root - 7, s2, to, back);
}

proof fn lemma_rotation_minor_pentatonic(root: int)
    ensures
        rotated_classes(root, minor_pentatonic_steps()) == rotated_classes(root + 3, major_pentatonic_steps()),
{
    let s1 = minor_pentatonic_steps();
    let s2 = major_pentatonic_steps();
    let to = seq![4int, 0, 1, 2, 3];
    let back = seq![1int, 2, 3, 4, 0];
    assert forall|k: int| 0 <= k < s1.len() implies 0 <= #[trigger] to[k] < s2.len() && (root
        + s1[k]) % 12 == (root + 3 + s2[to[k]]) % 12 by {
        assert(k == 0 || k == 1 || k == 2 || k == 3 || k == 4);
    }
    assert forall|j: int| 0 <= j < s2.len() implies 0 <= #[trigger] back[j] < s1.len() && (root
        + 3 + s2[j]) % 12 == (root + s1[back[j]]) % 12 by {
        assert(j == 0 || j == 1 || j == 2 || j == 3 || j == 4);
    }
    lemma_same_classes(root, s1, root + 3, s2, to, back);
}

/// Two rotated step sets are equal when `to` sends each step of the first
/// to a step of the second that lands on the same pitch class, and `back`
/// does the same the other way.
proof fn lemma_same_classes(
    r1: int,
    s1: Seq<u8>,
    r2: int,
    s2: Seq<u8>,
    to: Seq<int>,
    back: Seq<int>,
)
    requires
        to.len() == s1.len(),
        back.len() == s2.len(),
        forall|k: int|
            0 <= k < s1.len() ==> 0 <= #[trigger] to[k] < s2.len() && (r1 + s1[k]) % 12 == (r2
                + s2[to[k]]) % 12,
        forall|j: int|
            0 <= j < s2.len() ==> 0 <= #[trigger] back[j] < s1.len() && (r2 + s2[j]) % 12 == (r1
                + s1[back[j]]) % 12,
    ensures
        rotated_classes(r1, s1) == rotated_classes(r2, s2),
{
    assert forall|pc: int| #[trigger]
        rotated_classes(r1, s1).contains(pc) == rotated_classes(r2, s2).contains(pc) by {
        if rotated_classes(r1, s1).contains(pc) {
            let k = choose|k: int| 0 <= k < s1.len() && (r1 + s1[k]) % 12 == pc;
            assert(0 <= to[k] < s2.len());
        }
        if rotated_classes(r2, s2).contains(pc) {
            let j = choose|j: int| 0 <= j < s2.len() && (r2 + s2[j]) % 12 == pc;
            assert(0 <= back[j] < s1.len());
        }
    }
    assert(rotated_classes(r1, s1) =~= rotated_classes(r2, s2));
}

/// A note that is already in the scale snaps to itself; in particular
/// snapping is idempotent: a snapped note snaps to itself again.
pub proof fn lemma_scale_note_keeps_itself(classes: Set<int>, n: int, c: int)
    requires
        in_scale(classes, n),
        is_nearest(classes, n, c),
    ensures
        c == n,
{
}

/// In the chromatic scale every non-negative note snaps to itself.
pub proof fn lemma_chromatic_keeps_note(midi: int, c: int)
    requires
        midi >= 0,
        is_nearest(chromatic_classes(), midi, c),
    ensures
        c == midi,
{
    assert(in_scale(chromatic_classes(), midi));
}

/// A scale with at least one pitch class always snaps a note of 6 or more:
/// the thirteen notes within six semitones cover every pitch class.
pub proof fn lemma_nonempty_scale_snaps(classes: Set<int>, pc: int, midi: int)
    requires
        0 <= pc < 12,
        classes.contains(pc),
        midi >= 6,
    ensures
        !none_near(classes, midi),
{
    let c = midi - 6 + (pc - (midi - 6)) % 12;
    assert(c % 12 == pc);
    assert(in_scale(classes, c));
    assert(note_distance(c, midi) <= 6);
}

/// Setting bit `k` of a twelve-bit mask adds pitch class `k`.
proof fn lemma_set_bit(m: u16, k: u16)
    requires
        m < 0x1000,
        k < 12,
    ensures
        (m | (1u16 << k)) < 0x1000,
        mask_classes(m | (1u16 << k)) == mask_classes(m).insert(k as int),
{
    assert(m < 0x1000 && k < 12 ==> (m | (1u16 << k)) < 0x1000) by (bit_vector);
    assert forall|j: int| #[trigger]
        mask_classes(m | (1u16 << k)).contains(j) == mask_classes(m).insert(k as int).contains(
            j,
        ) by {
        let jj = j as u16;
        if 0 <= j < 12 {
            assert(jj < 12 && k < 12 ==> ((((m | (1u16 << k)) >> jj) & 1u16 == 1u16) == ((((m
                >> jj) & 1u16) == 1u16) || jj == k))) by (bit_vector);
        }
    }
    assert(mask_classes(m | (1u16 << k)) =~= mask_classes(m).insert(k as int));
}

proof fn lemma_empty_mask()
    ensures
        mask_classes(0u16) == Set::<int>::empty(),
{
    assert forall|j: int| !#[trigger] mask_classes(0u16).contains(j) by {
        let jj = j as u16;
        assert((0u16 >> jj) & 1u16 == 0u16) by (bit_vector);
    }
    assert(mask_classes(0u16) =~= Set::<int>::empty());
}

proof fn lemma_full_mask(pc: u16)
    requires
        pc < 12,
    ensures
        (0x0FFFu16 >> pc) & 1u16 == 1u16,
{
    assert(pc < 12 ==> (0x0FFFu16 >> pc) & 1u16 == 1u16) by (bit_vector);
}

} // verus!
