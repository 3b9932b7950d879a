use vstd::prelude::*;
use vstd::string::StringExecFns;

use crate::chord::qualities::DyadQuality;
use crate::chord::qualities::TetradQuality;
use crate::chord::qualities::TriadQuality;
use crate::note::FlatOrSharp;
use crate::note::Note;

/// Separate functions for extracting information about intervals and different chord sizes.
pub mod guess;
/// Definitions for each chord type's own qualities (major, minor, augmented, etc).
pub mod qualities;

verus! {

broadcast use crate::note::Note::lemma_ordinal_range;

/// Different types of chords.
#[derive(Debug, Eq, PartialEq)]
pub enum ChordType {
    Complex(Vec<Chord>),
    Dyad(DyadQuality),
    Silence,
    SingleNote,
    Tetrad(TetradQuality),
    Triad(TriadQuality),
    Unknown,
}

/// From Wikipedia: a set of notes that are heard as if sounding simultaneously.
///
/// A chord is assembled once by `from_notes` and never changed: the notes it
/// was asked about in caller-supplied order, the intervals of the recognized
/// skeleton, the type with its quality, the note heard as harmonic root, and
/// the notes judged extraneous to the skeleton.
#[derive(Debug, Eq, PartialEq)]
pub struct Chord {
    pub intervals: Vec<u8>,
    pub chord_type: ChordType,
    pub notes: Vec<Note>,
    pub root: Option<Note>,
    pub additions: Option<Vec<Note>>,
}

/// Whether some note of `s` sits at ordinal `o`.
pub open spec fn seq_contains_ord(s: Seq<Note>, o: int) -> bool {
    exists|i: int| 0 <= i < s.len() && s[i].ordinal() == o
}

/// One note for each ordinal below `k` that occurs in `s`, in ascending order.
pub open spec fn spec_dedup_upto(s: Seq<Note>, k: int) -> Seq<Note>
    decreases k,
{
    if k <= 0 {
        Seq::<Note>::empty()
    } else {
        spec_dedup_upto(s, k - 1) + if seq_contains_ord(s, k - 1) {
            seq![Note::spec_from_ordinal(k - 1)]
        } else {
            Seq::<Note>::empty()
        }
    }
}

/// The notes of `s` with duplicates dropped, sorted by ascending pitch.
pub open spec fn spec_sorted_dedup(s: Seq<Note>) -> Seq<Note> {
    spec_dedup_upto(s, 128)
}

/// The ordinals of a deduplicated sequence ascend strictly and stay below `k`.
pub proof fn lemma_dedup_upto_sorted(s: Seq<Note>, k: int)
    ensures
        forall|i: int, j: int|
            0 <= i < j < spec_dedup_upto(s, k).len() ==> spec_dedup_upto(s, k)[i].ordinal()
                < spec_dedup_upto(s, k)[j].ordinal(),
        forall|i: int|
            0 <= i < spec_dedup_upto(s, k).len() ==> 0 <= #[trigger] spec_dedup_upto(
                s,
                k,
            )[i].ordinal() < k,
    decreases k,
{
    if k > 0 {
        lemma_dedup_upto_sorted(s, k - 1);
        let prev = spec_dedup_upto(s, k - 1);
        let d = spec_dedup_upto(s, k);
        if seq_contains_ord(s, k - 1) {
            Note::lemma_from_ordinal_ordinal(k - 1);
            assert(d =~= prev.push(Note::spec_from_ordinal(k - 1)));
            assert(d[d.len() - 1].ordinal() == k - 1);
            assert forall|i: int, j: int| 0 <= i < j < d.len() implies d[i].ordinal()
                < d[j].ordinal() by {
                if j < d.len() - 1 {
                    assert(d[i] == prev[i] && d[j] == prev[j]);
                } else {
                    assert(d[i] == prev[i]);
                    assert(prev[i].ordinal() < k - 1);
                }
            }
        } else {
            assert(d =~= prev);
        }
    }
}

/// Two sequences sounding the same ordinals deduplicate to the same notes.
pub proof fn lemma_dedup_upto_same_ordinals(s: Seq<Note>, t: Seq<Note>, k: int)
    requires
        forall|o: int| seq_contains_ord(s, o) <==> seq_contains_ord(t, o),
    ensures
        spec_dedup_upto(s, k) == spec_dedup_upto(t, k),
    decreases k,
{
    if k > 0 {
        lemma_dedup_upto_same_ordinals(s, t, k - 1);
    }
}

/// The notes of `s` with duplicates dropped, sorted ascending: the executable
/// side of `spec_sorted_dedup`.
pub(crate) fn sorted_dedup(notes: &Vec<Note>) -> (r: Vec<Note>)
    ensures
        r@ == spec_sorted_dedup(notes@),
{
    let mut seen: Vec<bool> = Vec::new();
    let mut o: usize = 0;
    while o < 128
        invariant
            o <= 128,
            seen@.len() == o,
            forall|j: int| 0 <= j < o ==> seen@[j] == false,
        decreases 128 - o,
    {
        seen.push(false);
        o += 1;
    }
    let mut i: usize = 0;
    while i < notes.len()
        invariant
            i <= notes@.len(),
            seen@.len() == 128,
            forall|j: int| 0 <= j < 128 ==> seen@[j] == seq_contains_ord(notes@.take(i as int), j),
        decreases notes@.len() - i,
    {
        let idx = notes[i].midi_key_number();
        seen.set(idx as usize, true);
        i += 1;
        proof {
            assert(notes@.take(i as int) =~= notes@.take(i - 1).push(notes@[i - 1]));
            assert forall|j: int| 0 <= j < 128 implies seen@[j] == seq_contains_ord(
                notes@.take(i as int),
                j,
            ) by {
                let prefix = notes@.take(i - 1);
                let full = notes@.take(i as int);
                if seq_contains_ord(prefix, j) {
                    let w = choose|w: int| 0 <= w < prefix.len() && prefix[w].ordinal() == j;
                    assert(full[w].ordinal() == j);
                }
                if seq_contains_ord(full, j) && j != idx {
                    let w = choose|w: int| 0 <= w < full.len() && full[w].ordinal() == j;
                    assert(w < prefix.len());
                    assert(prefix[w].ordinal() == j);
                }
                assert(full[i - 1].ordinal() == idx);
            }
        }
    }
    proof {
        assert(notes@.take(notes@.len() as int) =~= notes@);
    }
    let mut r: Vec<Note> = Vec::new();
    let mut o: usize = 0;
    while o < 128
        invariant
            o <= 128,
            seen@.len() == 128,
            forall|j: int| 0 <= j < 128 ==> seen@[j] == seq_contains_ord(notes@, j),
            r@ == spec_dedup_upto(notes@, o as int),
        decreases 128 - o,
    {
        if seen[o] {
            match Note::from_ordinal(o as u8) {
                Ok(note) => {
                    r.push(note);
                },
                Err(_) => {},
            }
        }
        proof {
            assert(r@ =~= spec_dedup_upto(notes@, o + 1));
        }
        o += 1;
    }
    r
}

/// A fresh vector holding the same notes.
pub(crate) fn copy_notes(notes: &Vec<Note>) -> (r: Vec<Note>)
    ensures
        r@ == notes@,
{
    let mut r: Vec<Note> = Vec::new();
    let mut i: usize = 0;
    while i < notes.len()
        invariant
            i <= notes@.len(),
            r@ == notes@.take(i as int),
        decreases notes@.len() - i,
    {
        r.push(notes[i]);
        i += 1;
        proof {
            assert(notes@.take(i as int) =~= notes@.take(i - 1).push(notes@[i - 1]));
        }
    }
    proof {
        assert(notes@.take(notes@.len() as int) =~= notes@);
    }
    r
}

/// A fresh vector holding the same intervals.
pub(crate) fn copy_intervals(intervals: &Vec<u8>) -> (r: Vec<u8>)
    ensures
        r@ == intervals@,
{
    let mut r: Vec<u8> = Vec::new();
    let mut i: usize = 0;
    while i < intervals.len()
        invariant
            i <= intervals@.len(),
            r@ == intervals@.take(i as int),
        decreases intervals@.len() - i,
    {
        r.push(intervals[i]);
        i += 1;
        proof {
            assert(intervals@.take(i as int) =~= intervals@.take(i - 1).push(intervals@[i - 1]));
        }
    }
    proof {
        assert(intervals@.take(intervals@.len() as int) =~= intervals@);
    }
    r
}

/// The intervals a classified chord reports, over its deduplicated, sorted
/// notes `u`: four notes may collapse onto a decomposed triad's merged pair,
/// every other size keeps its plain gaps.
pub open spec fn spec_classified_intervals(u: Seq<Note>) -> Seq<u8> {
    let iv = guess::spec_intervals(u);
    if u.len() == 4 {
        guess::spec_tetrad_intervals(iv[0] as int, iv[1] as int, iv[2] as int)
    } else {
        iv
    }
}

/// The chord type classification assigns to the deduplicated, sorted notes
/// `u`, by their count: silence, a single note, the dyad, triad or tetrad
/// match, or Unknown for five notes and more.
pub open spec fn spec_classified_type(u: Seq<Note>) -> ChordType {
    let iv = guess::spec_intervals(u);
    if u.len() == 0 {
        ChordType::Silence
    } else if u.len() == 1 {
        ChordType::SingleNote
    } else if u.len() == 2 {
        ChordType::Dyad(guess::spec_dyad_quality(iv[0] as int))
    } else if u.len() == 3 {
        ChordType::Triad(guess::spec_triad_quality(iv[0] as int, iv[1] as int))
    } else if u.len() == 4 {
        guess::spec_tetrad_type(iv[0] as int, iv[1] as int, iv[2] as int)
    } else {
        ChordType::Unknown
    }
}

/// The root classification assigns to the deduplicated, sorted notes `u`:
/// the single note itself, a dyad's lower note, or the winning rotation's
/// note; none for silence, five notes and more, or an indeterminate match.
pub open spec fn spec_classified_root(u: Seq<Note>) -> Option<Note> {
    let iv = guess::spec_intervals(u);
    if u.len() == 0 {
        None
    } else if u.len() == 1 {
        Some(u[0])
    } else if u.len() == 2 {
        Some(u[0])
    } else if u.len() == 3 {
        guess::spec_triad_root(u, iv[0] as int, iv[1] as int)
    } else if u.len() == 4 {
        guess::spec_tetrad_root(u, iv[0] as int, iv[1] as int, iv[2] as int)
    } else {
        None
    }
}

/// The additions classification attaches: only the four-note decompositions
/// run the addition detector; everything else leaves the field empty.
pub open spec fn spec_classified_additions(u: Seq<Note>) -> Option<Seq<Note>> {
    let iv = guess::spec_intervals(u);
    if u.len() == 4 {
        guess::spec_tetrad_additions(u, iv[0] as int, iv[1] as int, iv[2] as int)
    } else {
        None
    }
}

/// Convenient methods for working with musical chords.
impl Chord {
    /// Build a chord from a set of notes: deduplicate and sort them, read
    /// the intervals, and hand the result to the matcher for their count.
    /// Any collection is accepted; what no matcher recognizes degrades to an
    /// Unknown or Indeterminate chord rather than failing.
    pub fn from_notes(notes: &Vec<Note>) -> (r: Chord)
        ensures
            r.notes@ == notes@,
            r.intervals@ == spec_classified_intervals(spec_sorted_dedup(notes@)),
            r.chord_type == spec_classified_type(spec_sorted_dedup(notes@)),
            r.root == spec_classified_root(spec_sorted_dedup(notes@)),
            guess::spec_opt_notes(r.additions) == spec_classified_additions(
                spec_sorted_dedup(notes@),
            ),
    {
        let unique = sorted_dedup(notes);
        proof {
            lemma_dedup_upto_sorted(notes@, 128);
        }
        let intervals = guess::intervals(&unique);

        // Handle each chord size separately
        let count = unique.len();
        let mut chord = if count == 0 {
            // No notes, only silence
            Chord::default()
        } else if count == 1 {
            // Single note
            let root = Some(unique[0]);
            Chord {
                intervals,
                chord_type: ChordType::SingleNote,
                notes: unique,
                root,
                additions: None,
            }
        } else if count == 2 {
            guess::dyad(unique, intervals)
        } else if count == 3 {
            guess::triad(&unique, &intervals)
        } else if count == 4 {
            guess::tetrad(&unique, &intervals)
        } else {
            // Anything else not looking like a proper chord that is worth naming
            Chord { intervals, chord_type: ChordType::Unknown, notes: unique, root: None, additions: None }
        };
        chord.notes = copy_notes(notes);
        chord
    }

    /// Retrieve the intervals in a chord.
    pub fn intervals(&self) -> (r: Vec<u8>)
        ensures
            r@ == self.intervals@,
    {
        copy_intervals(&self.intervals)
    }

    /// Tells whether the chord is actually a silence (has no notes in it).
    pub fn is_silence(&self) -> (r: bool)
        ensures
            r == (self.notes@.len() == 0),
    {
        self.notes.len() == 0
    }

    /// Tells whether the chord is actually not an harmony but a single note.
    pub fn is_single_note(&self) -> (r: bool)
        ensures
            r == (self.notes@.len() == 1),
    {
        self.notes.len() == 1
    }

    /// Tells whether the chord is a triad.
    pub fn is_triad(&self) -> (r: bool)
        ensures
            r == (self.notes@.len() == 3),
    {
        self.notes.len() == 3
    }

    /// What `name` spells: the root's letter with its accidental mark, then
    /// the quality symbol when the chord is a triad. Other chord types stop at
    /// the root's name.
    pub open spec fn spec_name(root: Note, accidental: FlatOrSharp, chord_type: ChordType) -> Seq<
        char,
    > {
        seq![root.spec_tone_char(root.spec_transpose_for(accidental))] + root.spec_accidental(
            accidental,
        ) + match chord_type {
            ChordType::Triad(quality) => quality.spec_symbol(),
            _ => Seq::<char>::empty(),
        }
    }

    /// The musician-friendly name of a chord, such as "C", "C#m" or "Dbdim";
    /// nothing when no root was recognized. Roots outside the octave-numbered
    /// part of the scale stay out, as `Note::name` leaves them out.
    pub fn name(&self, accidental: FlatOrSharp) -> (r: Option<String>)
        requires
            self.root matches Some(root) ==> 12 <= root.ordinal() && root.ordinal()
                + root.spec_transpose_for(accidental) + 3 <= 127,
        ensures
            match self.root {
                Some(root) => r matches Some(s) && s@ == Self::spec_name(
                    root,
                    accidental,
                    self.chord_type,
                ),
                None => r is None,
            },
    {
        match self.root {
            None => None,
            Some(root) => {
                let (transpose_half_tones, accidental_mark): (i8, &'static str) = match (
                    root.is_sharp(),
                    accidental,
                ) {
                    (true, FlatOrSharp::Flat) => (1i8, "b"),
                    (true, FlatOrSharp::Sharp) => (0i8, "#"),
                    (false, _) => (0i8, ""),
                };
                let tone = root.tone_name(transpose_half_tones);
                let mut s = String::from_str(crate::note::letter_str(tone));
                s.append(accidental_mark);
                let quality = match &self.chord_type {
                    ChordType::Triad(quality) => quality.symbol(),
                    _ => String::new(),
                };
                s.append(quality.as_str());
                proof {
                    reveal_strlit("b");
                    reveal_strlit("#");
                    reveal_strlit("");
                    assert(s@ =~= Self::spec_name(root, accidental, self.chord_type));
                }
                Some(s)
            },
        }
    }
}

/// Over any note collection, the intervals of its deduplicated, sorted notes
/// count one fewer than the distinct pitches sounding — none at all when the
/// collection is empty — and no interval is negative.
pub proof fn lemma_intervals_of_sorted_dedup(s: Seq<Note>)
    ensures
        guess::spec_intervals(spec_sorted_dedup(s)).len() == if spec_sorted_dedup(s).len() == 0 {
            0int
        } else {
            spec_sorted_dedup(s).len() - 1
        },
        forall|i: int|
            0 <= i < guess::spec_intervals(spec_sorted_dedup(s)).len() ==> guess::spec_intervals(
                spec_sorted_dedup(s),
            )[i] >= 0,
{
}

/// Doubling a collection note for note changes nothing a classification
/// reports but the raw notes field: no ordinal appears or disappears, so the
/// deduplicated notes — and with them intervals, chord type, root and
/// additions — stay exactly the same.
pub proof fn lemma_classify_dedup_idempotent(s: Seq<Note>)
    ensures
        spec_sorted_dedup(s + s) == spec_sorted_dedup(s),
        spec_classified_intervals(spec_sorted_dedup(s + s)) == spec_classified_intervals(
            spec_sorted_dedup(s),
        ),
        spec_classified_type(spec_sorted_dedup(s + s)) == spec_classified_type(
            spec_sorted_dedup(s),
        ),
        spec_classified_root(spec_sorted_dedup(s + s)) == spec_classified_root(
            spec_sorted_dedup(s),
        ),
        spec_classified_additions(spec_sorted_dedup(s + s)) == spec_classified_additions(
            spec_sorted_dedup(s),
        ),
{
    assert forall|o: int| seq_contains_ord(s + s, o) <==> seq_contains_ord(s, o) by {
        if seq_contains_ord(s + s, o) {
            let w = choose|w: int| 0 <= w < (s + s).len() && (s + s)[w].ordinal() == o;
            if w < s.len() {
                assert(s[w].ordinal() == o);
            } else {
                assert(s[w - s.len()].ordinal() == o);
            }
        }
        if seq_contains_ord(s, o) {
            let w = choose|w: int| 0 <= w < s.len() && s[w].ordinal() == o;
            assert((s + s)[w].ordinal() == o);
        }
    }
    lemma_dedup_upto_same_ordinals(s + s, s, 128);
}

/// Five or more distinct pitches are never recognized: the classification is
/// Unknown, with no root and no additions.
pub proof fn lemma_five_or_more_unknown(s: Seq<Note>)
    requires
        spec_sorted_dedup(s).len() >= 5,
    ensures
        spec_classified_type(spec_sorted_dedup(s)) == ChordType::Unknown,
        spec_classified_root(spec_sorted_dedup(s)) is None,
        spec_classified_additions(spec_sorted_dedup(s)) is None,
{
}

/// Every note of a deduplicated sequence is one of the notes it was built
/// from.
pub proof fn lemma_dedup_element(s: Seq<Note>, k: int, i: int)
    requires
        0 <= i < spec_dedup_upto(s, k).len(),
    ensures
        exists|w: int| 0 <= w < s.len() && s[w] == spec_dedup_upto(s, k)[i],
    decreases k,
{
    if k > 0 {
        let prev = spec_dedup_upto(s, k - 1);
        let d = spec_dedup_upto(s, k);
        if i < prev.len() {
            lemma_dedup_element(s, k - 1, i);
            let w = choose|w: int| 0 <= w < s.len() && s[w] == prev[i];
            assert(d[i] == prev[i]);
            assert(s[w] == d[i]);
        } else {
            assert(seq_contains_ord(s, k - 1));
            let w = choose|w: int| 0 <= w < s.len() && s[w].ordinal() == k - 1;
            s[w].lemma_ordinal_roundtrip();
            assert(d[i] == Note::spec_from_ordinal(k - 1));
            assert(s[w] == d[i]);
        }
    }
}

/// A recognized root is always one of the notes the chord was built from.
pub proof fn lemma_root_is_an_input_note(s: Seq<Note>)
    ensures
        spec_classified_root(spec_sorted_dedup(s)) matches Some(root) ==> exists|w: int|
            0 <= w < s.len() && s[w] == root,
{
    let u = spec_sorted_dedup(s);
    if spec_classified_root(u) is Some {
        let root = spec_classified_root(u)->Some_0;
        assert(exists|i: int| 0 <= i < u.len() && u[i] == root) by {
            if u.len() == 3 {
                let g = guess::spec_triad_root_index(
                    guess::spec_intervals(u)[0] as int,
                    guess::spec_intervals(u)[1] as int,
                );
                assert(0 <= g < 3);
                assert(u[g] == root);
            } else if u.len() == 4 {
                let iv = guess::spec_intervals(u);
                let a = iv[0] as int;
                let b = iv[1] as int;
                let c = iv[2] as int;
                if guess::spec_tetrad_guard_bass(a) {
                    let g = guess::spec_triad_root_index(b, c);
                    assert(0 <= g < 3);
                    assert(u[1 + g] == root);
                } else if guess::spec_tetrad_guard_overtone(a, b, c) {
                    let g = guess::spec_triad_root_index(a, b);
                    assert(0 <= g < 3);
                    assert(u.take(3)[g] == root);
                    assert(u[g] == root);
                } else if guess::spec_tetrad_guard_second(a, b) {
                    let g = guess::spec_triad_root_index(a + b, c);
                    assert(0 <= g < 3);
                    assert(u[g] == root);
                } else if guess::spec_tetrad_guard_fourth(b, c) {
                    let g = guess::spec_triad_root_index(a, b + c);
                    assert(0 <= g < 3);
                    assert(u[g] == root);
                } else {
                    let g = guess::spec_tetrad_root_index(a, b, c);
                    assert(0 <= g < 4);
                    assert(u[g] == root);
                }
            }
        }
        let i = choose|i: int| 0 <= i < u.len() && u[i] == root;
        lemma_dedup_element(s, 128, i);
    }
}

/// A default, empty chord with no notes, aka "silence".
impl Default for Chord {
    fn default() -> (r: Self)
        ensures
            r.intervals@ == Seq::<u8>::empty(),
            r.chord_type == ChordType::Silence,
            r.notes@ == Seq::<Note>::empty(),
            r.root is None,
            r.additions is None,
    {
        Self {
            intervals: Vec::new(),
            chord_type: ChordType::Silence,
            notes: Vec::new(),
            root: None,
            additions: None,
        }
    }
}

} // verus!
