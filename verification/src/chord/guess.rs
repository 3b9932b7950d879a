use vstd::prelude::*;

use crate::chord::Chord;
use crate::chord::ChordType;
use crate::chord::copy_intervals;
use crate::chord::copy_notes;
use crate::chord::qualities::DyadQuality;
use crate::chord::qualities::TetradQuality;
use crate::chord::qualities::TriadQuality;
use crate::chord::seq_contains_ord;
use crate::note::Note;

verus! {

broadcast use crate::note::Note::lemma_ordinal_range;

/// Ordinals never decrease along the sequence.
pub open spec fn spec_non_decreasing(s: Seq<Note>) -> bool {
    forall|i: int| 0 <= i < s.len() - 1 ==> #[trigger] s[i].ordinal() <= s[i + 1].ordinal()
}

/// The semitone gaps between consecutive notes of an ordered sequence; empty
/// for zero or one notes.
pub open spec fn spec_intervals(s: Seq<Note>) -> Seq<u8> {
    if s.len() == 0 {
        Seq::<u8>::empty()
    } else {
        Seq::new((s.len() - 1) as nat, |i: int| (s[i + 1].ordinal() - s[i].ordinal()) as u8)
    }
}

/// Compute the intervals of a set of notes, relative to the bass note (the
/// note in the set having the lowest pitch). The notes must come ordered by
/// pitch; each gap is then the non-negative distance to the note before.
pub fn intervals(notes: &Vec<Note>) -> (r: Vec<u8>)
    requires
        spec_non_decreasing(notes@),
    ensures
        r@ == spec_intervals(notes@),
{
    let mut intervals: Vec<u8> = Vec::new();
    if notes.len() > 0 {
        let mut prev_key_number = notes[0].midi_key_number();
        let mut i: usize = 1;
        while i < notes.len()
            invariant
                1 <= i <= notes@.len(),
                notes@.len() > 0,
                spec_non_decreasing(notes@),
                prev_key_number == notes@[i - 1].ordinal(),
                intervals@ == spec_intervals(notes@).take(i - 1),
            decreases notes@.len() - i,
        {
            let cur_key_number = notes[i].midi_key_number();
            intervals.push(cur_key_number - prev_key_number);
            prev_key_number = cur_key_number;
            i += 1;
            proof {
                assert(spec_intervals(notes@).take(i - 1) =~= spec_intervals(notes@).take(
                    i - 2,
                ).push((notes@[i - 1].ordinal() - notes@[i - 2].ordinal()) as u8));
            }
        }
    }
    proof {
        if notes@.len() > 0 {
            assert(spec_intervals(notes@).take(notes@.len() - 1) =~= spec_intervals(notes@));
        } else {
            assert(intervals@ =~= spec_intervals(notes@));
        }
    }
    intervals
}

/// Sum of a sequence of semitone gaps.
pub open spec fn spec_ivsum(s: Seq<u8>) -> int
    decreases s.len(),
{
    if s.len() == 0 {
        0
    } else {
        spec_ivsum(s.drop_last()) + s.last()
    }
}

/// A sum of semitone gaps never falls below zero.
pub proof fn lemma_ivsum_nonneg(s: Seq<u8>)
    ensures
        spec_ivsum(s) >= 0,
    decreases s.len(),
{
    if s.len() > 0 {
        lemma_ivsum_nonneg(s.drop_last());
    }
}

/// A prefix sum of semitone gaps stays between zero and the full sum.
pub proof fn lemma_ivsum_prefix(s: Seq<u8>, j: int)
    requires
        0 <= j <= s.len(),
    ensures
        0 <= spec_ivsum(s.take(j)) <= spec_ivsum(s),
    decreases s.len(),
{
    lemma_ivsum_nonneg(s.take(j));
    if j == s.len() {
        assert(s.take(j) =~= s);
    } else {
        assert(s.drop_last().take(j) =~= s.take(j));
        lemma_ivsum_prefix(s.drop_last(), j);
    }
}

/// The sum of a pair of semitone gaps is their plain sum.
pub proof fn lemma_ivsum_pair(x: u8, y: u8)
    ensures
        spec_ivsum(seq![x, y]) == x + y,
{
    assert(seq![x].drop_last() =~= Seq::<u8>::empty());
    assert(spec_ivsum(seq![x]) == spec_ivsum(Seq::<u8>::empty()) + x);
    assert(seq![x, y].drop_last() =~= seq![x]);
    assert(spec_ivsum(seq![x, y]) == spec_ivsum(seq![x]) + y);
}

/// Whether the skeleton grown from ordinal `bass` by the intervals predicts
/// ordinal `o`: `o` is `bass` plus some non-empty prefix sum of the gaps.
pub open spec fn spec_is_expected(bass: int, iv: Seq<u8>, o: int) -> bool {
    exists|j: int| 1 <= j <= iv.len() && o == bass + spec_ivsum(iv.take(j))
}

/// Whether ordinal `o` sounds above the bass of slice `s` without the
/// skeleton predicting it.
pub open spec fn spec_unexplained(s: Seq<Note>, iv: Seq<u8>, o: int) -> bool {
    seq_contains_ord(s.skip(1), o) && !spec_is_expected(s[0].ordinal(), iv, o)
}

/// The unexplained ordinals below `k`, ascending, each as its note.
pub open spec fn spec_candidates_upto(s: Seq<Note>, iv: Seq<u8>, k: int) -> Seq<Note>
    decreases k,
{
    if k <= 0 {
        Seq::<Note>::empty()
    } else {
        spec_candidates_upto(s, iv, k - 1) + if spec_unexplained(s, iv, k - 1) {
            seq![Note::spec_from_ordinal(k - 1)]
        } else {
            Seq::<Note>::empty()
        }
    }
}

/// All the unexplained ordinals of slice `s`, ascending, as notes.
pub open spec fn spec_candidates(s: Seq<Note>, iv: Seq<u8>) -> Seq<Note> {
    spec_candidates_upto(s, iv, 128)
}

/// What the addition detector reports for slice `s` against the skeleton's
/// intervals: the notes above the bass that the skeleton does not predict —
/// unless that is every one of them, in which case the bass itself is the
/// stranger and the rest of the slice is read on its own. A slice of one
/// note has no additions.
pub open spec fn spec_additions(s: Seq<Note>, iv: Seq<u8>) -> Seq<Note>
    decreases s.len(),
{
    if s.len() <= 1 {
        Seq::<Note>::empty()
    } else if spec_candidates(s, iv).len() == s.len() - 1 {
        seq![s[0]] + spec_additions(s.skip(1), iv)
    } else {
        spec_candidates(s, iv)
    }
}

/// Whether a byte sits in the vector.
fn contains_u8(v: &Vec<u8>, x: u8) -> (r: bool)
    ensures
        r == v@.contains(x),
{
    let mut i: usize = 0;
    while i < v.len()
        invariant
            i <= v@.len(),
            forall|t: int| 0 <= t < i ==> v@[t] != x,
        decreases v@.len() - i,
    {
        if v[i] == x {
            return true;
        }
        i += 1;
    }
    false
}

/// The candidate additions of the slice of `notes` starting at `start`:
/// the notes above the slice's bass whose ordinal no prefix sum of the
/// intervals reaches, ascending.
fn candidates_from(notes: &Vec<Note>, intervals: &Vec<u8>, start: usize) -> (r: Vec<Note>)
    requires
        start < notes@.len(),
        notes@[start as int].ordinal() + spec_ivsum(intervals@) <= 255,
    ensures
        r@ == spec_candidates(notes@.skip(start as int), intervals@),
{
    let ghost tail = notes@.skip(start as int);
    let n = notes.len();

    // Mark the ordinals sounding above the bass of the slice.
    let mut seen: Vec<bool> = Vec::new();
    let mut o: usize = 0;
    while o < 128
        invariant
            o <= 128,
            seen@.len() == o,
            forall|j: int| 0 <= j < o ==> seen@[j] == false,
        decreases 128 - o,
    {
        seen.push(false);
        o += 1;
    }
    let mut i: usize = start + 1;
    while i < n
        invariant
            n == notes@.len(),
            start + 1 <= i <= notes@.len(),
            seen@.len() == 128,
            forall|j: int|
                0 <= j < 128 ==> seen@[j] == seq_contains_ord(
                    notes@.subrange(start + 1, i as int),
                    j,
                ),
        decreases notes@.len() - i,
    {
        let idx = notes[i].midi_key_number();
        seen.set(idx as usize, true);
        i += 1;
        proof {
            let prefix = notes@.subrange(start + 1, i - 1);
            let full = notes@.subrange(start + 1, i as int);
            assert(full =~= prefix.push(notes@[i - 1]));
            assert forall|j: int| 0 <= j < 128 implies seen@[j] == seq_contains_ord(full, j) by {
                if seq_contains_ord(prefix, j) {
                    let w = choose|w: int| 0 <= w < prefix.len() && prefix[w].ordinal() == j;
                    assert(full[w].ordinal() == j);
                }
                if seq_contains_ord(full, j) && j != idx {
                    let w = choose|w: int| 0 <= w < full.len() && full[w].ordinal() == j;
                    assert(w < prefix.len());
                    assert(prefix[w].ordinal() == j);
                }
                assert(full[full.len() - 1].ordinal() == idx);
            }
        }
    }
    proof {
        assert(notes@.subrange(start + 1, notes@.len() as int) =~= tail.skip(1));
    }

    // The ordinals the skeleton predicts above the slice's bass.
    let bass = notes[start].midi_key_number();
    let mut expected: Vec<u8> = Vec::new();
    let mut prev = bass;
    let mut j: usize = 0;
    while j < intervals.len()
        invariant
            j <= intervals@.len(),
            bass == notes@[start as int].ordinal(),
            notes@[start as int].ordinal() + spec_ivsum(intervals@) <= 255,
            prev == bass + spec_ivsum(intervals@.take(j as int)),
            expected@.len() == j,
            forall|t: int|
                0 <= t < j ==> expected@[t] == bass + spec_ivsum(intervals@.take(t + 1)),
        decreases intervals@.len() - j,
    {
        proof {
            lemma_ivsum_prefix(intervals@, j + 1);
            assert(intervals@.take(j + 1).drop_last() =~= intervals@.take(j as int));
            assert(spec_ivsum(intervals@.take(j + 1)) == spec_ivsum(intervals@.take(j as int))
                + intervals@[j as int]);
        }
        prev = prev + intervals[j];
        expected.push(prev);
        j += 1;
    }

    // Walk the scale upward and keep what sounds but is not predicted.
    let mut cands: Vec<Note> = Vec::new();
    let mut o: usize = 0;
    while o < 128
        invariant
            o <= 128,
            seen@.len() == 128,
            forall|j: int| 0 <= j < 128 ==> seen@[j] == seq_contains_ord(tail.skip(1), j),
            expected@.len() == intervals@.len(),
            bass == tail[0].ordinal(),
            forall|t: int|
                0 <= t < expected@.len() ==> expected@[t] == bass + spec_ivsum(
                    intervals@.take(t + 1),
                ),
            notes@[start as int].ordinal() + spec_ivsum(intervals@) <= 255,
            cands@ == spec_candidates_upto(tail, intervals@, o as int),
        decreases 128 - o,
    {
        if seen[o] {
            if !contains_u8(&expected, o as u8) {
                proof {
                    assert forall|t: int|
                        1 <= t <= intervals@.len() implies bass + spec_ivsum(intervals@.take(t))
                        != o by {
                        assert(expected@[t - 1] == bass + spec_ivsum(intervals@.take(t)));
                        lemma_ivsum_prefix(intervals@, t);
                        assert(!expected@.contains(o as u8));
                    }
                    assert(spec_unexplained(tail, intervals@, o as int));
                }
                match Note::from_ordinal(o as u8) {
                    Ok(note) => {
                        cands.push(note);
                    },
                    Err(_) => {},
                }
            } else {
                proof {
                    let t = choose|t: int| 0 <= t < expected@.len() && expected@[t] == o as u8;
                    lemma_ivsum_prefix(intervals@, t + 1);
                    assert(bass + spec_ivsum(intervals@.take(t + 1)) == o);
                    assert(spec_is_expected(bass as int, intervals@, o as int));
                }
            }
        }
        proof {
            assert(cands@ =~= spec_candidates_upto(tail, intervals@, o + 1));
        }
        o += 1;
    }
    cands
}

/// Try to find notes in a chord that don't belong to the intervals known for
/// any of the recognized chord qualities: the notes that the skeleton grown
/// from the first note by the given intervals does not predict. When every
/// note above the bass is such a stranger, the bass itself is reported
/// instead, followed by what the remaining notes hold on their own; a single
/// leftover note is never its own addition.
pub fn additions(notes: &Vec<Note>, intervals: &Vec<u8>) -> (r: Vec<Note>)
    requires
        notes@.len() >= 1,
        forall|k: int|
            0 <= k < notes@.len() ==> #[trigger] notes@[k].ordinal() + spec_ivsum(intervals@)
                <= 255,
    ensures
        r@ == spec_additions(notes@, intervals@),
{
    let mut result: Vec<Note> = Vec::new();
    let mut start: usize = 0;
    proof {
        assert(notes@.skip(0) =~= notes@);
        assert(Seq::<Note>::empty() + spec_additions(notes@, intervals@) =~= spec_additions(
            notes@,
            intervals@,
        ));
    }
    while start < notes.len() - 1
        invariant
            start < notes@.len(),
            notes@.len() >= 1,
            result@ == notes@.take(start as int),
            spec_additions(notes@, intervals@) == result@ + spec_additions(
                notes@.skip(start as int),
                intervals@,
            ),
            forall|k: int|
                0 <= k < notes@.len() ==> #[trigger] notes@[k].ordinal() + spec_ivsum(intervals@)
                    <= 255,
        decreases notes@.len() - start,
    {
        let ghost s = notes@.skip(start as int);
        let mut cands = candidates_from(notes, intervals, start);
        if cands.len() == notes.len() - start - 1 {
            result.push(notes[start]);
            proof {
                let rest = spec_additions(s.skip(1), intervals@);
                assert(s.skip(1) =~= notes@.skip(start + 1));
                assert(spec_additions(s, intervals@) == seq![s[0]] + rest);
                assert(notes@.take(start + 1) =~= notes@.take(start as int).push(
                    notes@[start as int],
                ));
                assert(result@ =~= notes@.take(start + 1));
                assert(notes@.take(start as int) + (seq![s[0]] + rest) =~= notes@.take(start + 1)
                    + rest);
            }
            start += 1;
        } else {
            let mut out = result;
            out.append(&mut cands);
            proof {
                assert(spec_additions(s, intervals@) == spec_candidates(s, intervals@));
            }
            return out;
        }
    }
    proof {
        assert(notes@.skip(start as int).len() == 1);
        assert(result@ + spec_additions(notes@.skip(start as int), intervals@) =~= result@);
    }
    result
}

/// When the skeleton explains none of the notes above the bass of a slice of
/// two notes or more, the detector reports the bass itself as an addition
/// and reads the remaining notes on their own. Each such step strips exactly
/// one note, so the detector comes to rest within as many steps as the slice
/// has notes — the recursion in `spec_additions` descends on the slice's
/// length.
pub proof fn lemma_additions_strip_bass(s: Seq<Note>, iv: Seq<u8>)
    requires
        s.len() >= 2,
        spec_candidates(s, iv).len() == s.len() - 1,
    ensures
        spec_additions(s, iv) == seq![s[0]] + spec_additions(s.skip(1), iv),
        spec_additions(s, iv)[0] == s[0],
{
    assert((seq![s[0]] + spec_additions(s.skip(1), iv))[0] == s[0]);
}

/// The dyad quality a single semitone gap names: a fixed table from the gap
/// (0 to 25 half tones) to the interval's compound name.
pub open spec fn spec_dyad_quality(gap: int) -> DyadQuality {
    if gap == 0 {
        DyadQuality::Perfect(0)
    } else if gap == 1 {
        DyadQuality::Augmented(1)
    } else if gap == 2 {
        DyadQuality::Major(2)
    } else if gap == 3 {
        DyadQuality::Minor(3)
    } else if gap == 4 {
        DyadQuality::Major(3)
    } else if gap == 5 {
        DyadQuality::Perfect(4)
    } else if gap == 6 {
        DyadQuality::Augmented(4)
    } else if gap == 7 {
        DyadQuality::Perfect(5)
    } else if gap == 8 {
        DyadQuality::Minor(6)
    } else if gap == 9 {
        DyadQuality::Major(6)
    } else if gap == 10 {
        DyadQuality::Minor(7)
    } else if gap == 11 {
        DyadQuality::Major(7)
    } else if gap == 12 {
        DyadQuality::Diminished(9)
    } else if gap == 13 {
        DyadQuality::Minor(9)
    } else if gap == 14 {
        DyadQuality::Major(9)
    } else if gap == 15 {
        DyadQuality::Minor(10)
    } else if gap == 16 {
        DyadQuality::Major(10)
    } else if gap == 17 {
        DyadQuality::Perfect(11)
    } else if gap == 18 {
        DyadQuality::Diminished(12)
    } else if gap == 19 {
        DyadQuality::Perfect(12)
    } else if gap == 20 {
        DyadQuality::Minor(13)
    } else if gap == 21 {
        DyadQuality::Major(13)
    } else if gap == 22 {
        DyadQuality::Minor(14)
    } else if gap == 23 {
        DyadQuality::Major(14)
    } else if gap == 24 {
        DyadQuality::Perfect(15)
    } else if gap == 25 {
        DyadQuality::Augmented(15)
    } else {
        DyadQuality::Indeterminate
    }
}

/// Extract information about a dyad (a set of two notes and the one gap
/// between them). The lower note is always the root.
pub(crate) fn dyad(notes: Vec<Note>, intervals: Vec<u8>) -> (r: Chord)
    requires
        notes@.len() == 2,
        intervals@.len() == 1,
    ensures
        r.intervals@ == intervals@,
        r.chord_type == ChordType::Dyad(spec_dyad_quality(intervals@[0] as int)),
        r.notes@ == notes@,
        r.root == Some(notes@[0]),
        r.additions is None,
{
    let dyad_type = match intervals[0] {
        0 => DyadQuality::Perfect(0),      // P1  d2
        1 => DyadQuality::Augmented(1),    // A1  m2
        2 => DyadQuality::Major(2),        // M2  d3
        3 => DyadQuality::Minor(3),        // m3  A2
        4 => DyadQuality::Major(3),        // M3  d4
        5 => DyadQuality::Perfect(4),      // P4  A3
        6 => DyadQuality::Augmented(4),    // A4  d5
        7 => DyadQuality::Perfect(5),      // P5  d6
        8 => DyadQuality::Minor(6),        // m6  A5
        9 => DyadQuality::Major(6),        // M6  d7
        10 => DyadQuality::Minor(7),       // m7  A6
        11 => DyadQuality::Major(7),       // M7  d8
        12 => DyadQuality::Diminished(9),  // d9
        13 => DyadQuality::Minor(9),       // m9  A8
        14 => DyadQuality::Major(9),       // M9  d10
        15 => DyadQuality::Minor(10),      // m10 A9
        16 => DyadQuality::Major(10),      // M10 d11
        17 => DyadQuality::Perfect(11),    // P11 A10
        18 => DyadQuality::Diminished(12), // d12 A11
        19 => DyadQuality::Perfect(12),    // P12 d13
        20 => DyadQuality::Minor(13),      // m13 A12
        21 => DyadQuality::Major(13),      // M13 d14
        22 => DyadQuality::Minor(14),      // m14 A13
        23 => DyadQuality::Major(14),      // M14 d15
        24 => DyadQuality::Perfect(15),    // P15 A14
        25 => DyadQuality::Augmented(15),  // A15
        _ => DyadQuality::Indeterminate,
    };
    let root = Some(notes[0]);

    Chord { intervals, chord_type: ChordType::Dyad(dyad_type), notes, root, additions: None }
}

/// The triad quality a pair of stacked intervals names when read as root
/// position.
pub open spec fn spec_triad_table(a: int, b: int) -> TriadQuality {
    if a == 4 && b == 3 {
        TriadQuality::Major
    } else if a == 3 && b == 4 {
        TriadQuality::Minor
    } else if a == 3 && b == 3 {
        TriadQuality::Diminished
    } else if a == 4 && b == 4 {
        TriadQuality::Augmented
    } else if a == 5 && b == 2 {
        TriadQuality::Suspended(4)
    } else if a == 2 && b == 5 {
        TriadQuality::Suspended(2)
    } else {
        TriadQuality::Indeterminate
    }
}

/// The first rotation of the voicing `(a, b)` whose interval pair the table
/// knows: 0 reads the voicing as root position, 1 as second inversion and 2
/// as first inversion, closing the octave with `12 - a - b`; 3 when no
/// rotation matches.
pub open spec fn spec_triad_root_index(a: int, b: int) -> int {
    if spec_triad_table(a, b) != TriadQuality::Indeterminate {
        0
    } else if spec_triad_table(b, 12 - a - b) != TriadQuality::Indeterminate {
        1
    } else if spec_triad_table(12 - a - b, a) != TriadQuality::Indeterminate {
        2
    } else {
        3
    }
}

/// The quality of the winning rotation of the voicing `(a, b)`;
/// Indeterminate when no rotation matches.
pub open spec fn spec_triad_quality(a: int, b: int) -> TriadQuality {
    let g = spec_triad_root_index(a, b);
    if g == 0 {
        spec_triad_table(a, b)
    } else if g == 1 {
        spec_triad_table(b, 12 - a - b)
    } else if g == 2 {
        spec_triad_table(12 - a - b, a)
    } else {
        TriadQuality::Indeterminate
    }
}

/// The note at the winning rotation's index; none for an indeterminate triad.
pub open spec fn spec_triad_root(notes: Seq<Note>, a: int, b: int) -> Option<Note> {
    let g = spec_triad_root_index(a, b);
    if g == 3 {
        None
    } else {
        Some(notes[g])
    }
}

/// The table lookup behind `spec_triad_table`.
fn triad_table(a: i32, b: i32) -> (q: TriadQuality)
    ensures
        q == spec_triad_table(a as int, b as int),
{
    if a == 4 && b == 3 {
        TriadQuality::Major
    } else if a == 3 && b == 4 {
        TriadQuality::Minor
    } else if a == 3 && b == 3 {
        TriadQuality::Diminished
    } else if a == 4 && b == 4 {
        TriadQuality::Augmented
    } else if a == 5 && b == 2 {
        TriadQuality::Suspended(4)
    } else if a == 2 && b == 5 {
        TriadQuality::Suspended(2)
    } else {
        TriadQuality::Indeterminate
    }
}

/// Extract information about a triad: three notes sorted ascending and the
/// two intervals between them. In the tetrad decompositions `notes` may hold
/// four notes against two merged intervals; the winning rotation's index
/// points into `notes` all the same.
///
/// A triad no rotation of which matches the table is Indeterminate and
/// carries no root.
pub(crate) fn triad(notes: &Vec<Note>, intervals: &Vec<u8>) -> (r: Chord)
    requires
        notes@.len() >= 3,
        intervals@.len() == 2,
    ensures
        r.intervals@ == intervals@,
        r.chord_type == ChordType::Triad(
            spec_triad_quality(intervals@[0] as int, intervals@[1] as int),
        ),
        r.notes@ == notes@,
        r.root == spec_triad_root(notes@, intervals@[0] as int, intervals@[1] as int),
        r.additions is None,
{
    let a = intervals[0] as i32;
    let b = intervals[1] as i32;
    // Interval between the topmost note and the first inversion of the root
    let complementary_interval = 12 - a - b;

    // Try one inversion at a time, looking for the natural intervals / root position
    let q0 = triad_table(a, b);
    if !(matches!(q0, TriadQuality::Indeterminate)) {
        return Chord {
            intervals: copy_intervals(intervals),
            chord_type: ChordType::Triad(q0),
            notes: copy_notes(notes),
            root: Some(notes[0]),
            additions: None,
        };
    }
    let q1 = triad_table(b, complementary_interval);
    if !(matches!(q1, TriadQuality::Indeterminate)) {
        return Chord {
            intervals: copy_intervals(intervals),
            chord_type: ChordType::Triad(q1),
            notes: copy_notes(notes),
            root: Some(notes[1]),
            additions: None,
        };
    }
    let q2 = triad_table(complementary_interval, a);
    if !(matches!(q2, TriadQuality::Indeterminate)) {
        return Chord {
            intervals: copy_intervals(intervals),
            chord_type: ChordType::Triad(q2),
            notes: copy_notes(notes),
            root: Some(notes[2]),
            additions: None,
        };
    }

    Chord {
        intervals: copy_intervals(intervals),
        chord_type: ChordType::Triad(TriadQuality::Indeterminate),
        notes: copy_notes(notes),
        root: None,
        additions: None,
    }
}

/// The seventh-chord quality a triple of stacked intervals names when read
/// as root position.
pub open spec fn spec_tetrad_table(x: int, y: int, z: int) -> TetradQuality {
    if x == 4 && y == 3 && z == 4 {
        TetradQuality::SeventhMajor
    } else if x == 3 && y == 4 && z == 3 {
        TetradQuality::SeventhMinor
    } else if x == 4 && y == 3 && z == 3 {
        TetradQuality::SeventhDominant
    } else if x == 3 && y == 3 && z == 3 {
        TetradQuality::SeventhDiminished
    } else if x == 3 && y == 3 && z == 4 {
        TetradQuality::SeventhHalfDiminished
    } else if x == 3 && y == 4 && z == 4 {
        TetradQuality::SeventhMinorMajor
    } else if x == 4 && y == 4 && z == 3 {
        TetradQuality::SeventhAugmentedMajor
    } else if x == 4 && y == 4 && z == 2 {
        TetradQuality::SeventhAugmented
    } else if x == 3 && y == 3 && z == 5 {
        TetradQuality::SeventhDiminishedMajor
    } else if x == 4 && y == 2 && z == 4 {
        TetradQuality::SeventhDominantFlatFive
    } else if x == 4 && y == 2 && z == 5 {
        TetradQuality::SeventhMajorFlatFive
    } else {
        TetradQuality::Indeterminate
    }
}

/// The first rotation of the voicing `(a, b, c)` whose interval triple the
/// seventh-chord table knows: 0 reads the voicing as root position, 1 as
/// third inversion, 2 as second inversion and 3 as first inversion, closing
/// the octave with `12 - a - b - c`; 4 when no rotation matches.
pub open spec fn spec_tetrad_root_index(a: int, b: int, c: int) -> int {
    let k = 12 - a - b - c;
    if spec_tetrad_table(a, b, c) != TetradQuality::Indeterminate {
        0
    } else if spec_tetrad_table(b, c, k) != TetradQuality::Indeterminate {
        1
    } else if spec_tetrad_table(c, k, a) != TetradQuality::Indeterminate {
        2
    } else if spec_tetrad_table(k, a, b) != TetradQuality::Indeterminate {
        3
    } else {
        4
    }
}

/// The quality of the winning rotation of the voicing `(a, b, c)`;
/// Indeterminate when no rotation matches.
pub open spec fn spec_tetrad_quality(a: int, b: int, c: int) -> TetradQuality {
    let k = 12 - a - b - c;
    let g = spec_tetrad_root_index(a, b, c);
    if g == 0 {
        spec_tetrad_table(a, b, c)
    } else if g == 1 {
        spec_tetrad_table(b, c, k)
    } else if g == 2 {
        spec_tetrad_table(c, k, a)
    } else if g == 3 {
        spec_tetrad_table(k, a, b)
    } else {
        TetradQuality::Indeterminate
    }
}

/// The bottom two notes are an octave or a unison apart: the bass doubles a
/// chord tone and the triad sits above it.
pub open spec fn spec_tetrad_guard_bass(a: int) -> bool {
    a % 12 == 0
}

/// The top note closes back to the bass's pitch class: the triad is the
/// bottom three notes and the top note an overtone.
pub open spec fn spec_tetrad_guard_overtone(a: int, b: int, c: int) -> bool {
    (a + b + c) % 12 == 0
}

/// The bottom two gaps together span a third: an added second splits it.
pub open spec fn spec_tetrad_guard_second(a: int, b: int) -> bool {
    a + b == 3 || a + b == 4
}

/// The top two gaps together span a third: an added fourth splits it.
pub open spec fn spec_tetrad_guard_fourth(b: int, c: int) -> bool {
    b + c == 3 || b + c == 4
}

/// The intervals the tetrad matcher reports: the merged pair of the winning
/// decomposition, or all three gaps for a genuine seventh chord.
pub open spec fn spec_tetrad_intervals(a: int, b: int, c: int) -> Seq<u8> {
    if spec_tetrad_guard_bass(a) {
        seq![b as u8, c as u8]
    } else if spec_tetrad_guard_overtone(a, b, c) {
        seq![a as u8, b as u8]
    } else if spec_tetrad_guard_second(a, b) {
        seq![(a + b) as u8, c as u8]
    } else if spec_tetrad_guard_fourth(b, c) {
        seq![a as u8, (b + c) as u8]
    } else {
        seq![a as u8, b as u8, c as u8]
    }
}

/// The chord type the tetrad matcher reports: the decomposed triad's, or the
/// seventh chord's.
pub open spec fn spec_tetrad_type(a: int, b: int, c: int) -> ChordType {
    if spec_tetrad_guard_bass(a) {
        ChordType::Triad(spec_triad_quality(b, c))
    } else if spec_tetrad_guard_overtone(a, b, c) {
        ChordType::Triad(spec_triad_quality(a, b))
    } else if spec_tetrad_guard_second(a, b) {
        ChordType::Triad(spec_triad_quality(a + b, c))
    } else if spec_tetrad_guard_fourth(b, c) {
        ChordType::Triad(spec_triad_quality(a, b + c))
    } else {
        ChordType::Tetrad(spec_tetrad_quality(a, b, c))
    }
}

/// The root the tetrad matcher reports for four sorted notes with gaps
/// `(a, b, c)`: the winning rotation's note of the decomposed triad, or of
/// the seventh chord; none when the match is indeterminate.
pub open spec fn spec_tetrad_root(notes: Seq<Note>, a: int, b: int, c: int) -> Option<Note> {
    if spec_tetrad_guard_bass(a) {
        let g = spec_triad_root_index(b, c);
        if g == 3 {
            None
        } else {
            Some(notes[1 + g])
        }
    } else if spec_tetrad_guard_overtone(a, b, c) {
        spec_triad_root(notes.take(3), a, b)
    } else if spec_tetrad_guard_second(a, b) {
        spec_triad_root(notes, a + b, c)
    } else if spec_tetrad_guard_fourth(b, c) {
        spec_triad_root(notes, a, b + c)
    } else {
        let g = spec_tetrad_root_index(a, b, c);
        if g == 4 {
            None
        } else {
            Some(notes[g])
        }
    }
}

/// The additions the tetrad matcher attaches: what the decomposed triad's
/// skeleton leaves unexplained; none on the seventh-chord path.
pub open spec fn spec_tetrad_additions(notes: Seq<Note>, a: int, b: int, c: int) -> Option<
    Seq<Note>,
> {
    if spec_tetrad_guard_bass(a) {
        Some(spec_additions(notes, seq![b as u8, c as u8]))
    } else if spec_tetrad_guard_overtone(a, b, c) {
        Some(spec_additions(notes, seq![a as u8, b as u8]))
    } else if spec_tetrad_guard_second(a, b) {
        Some(spec_additions(notes, seq![(a + b) as u8, c as u8]))
    } else if spec_tetrad_guard_fourth(b, c) {
        Some(spec_additions(notes, seq![a as u8, (b + c) as u8]))
    } else {
        None
    }
}

/// The view of an optional vector of notes.
pub open spec fn spec_opt_notes(o: Option<Vec<Note>>) -> Option<Seq<Note>> {
    match o {
        Some(v) => Some(v@),
        None => None,
    }
}

/// The four decomposition patterns are tried in a fixed order, and the
/// added-second pattern stands before the added-fourth one: a voicing whose
/// gaps satisfy both, with neither a doubled bass nor a closing overtone,
/// resolves by the added second — its merged intervals, its triad quality
/// and root, and its additions.
pub proof fn lemma_added_second_before_added_fourth(notes: Seq<Note>, a: int, b: int, c: int)
    requires
        !spec_tetrad_guard_bass(a),
        !spec_tetrad_guard_overtone(a, b, c),
        spec_tetrad_guard_second(a, b),
        spec_tetrad_guard_fourth(b, c),
    ensures
        spec_tetrad_intervals(a, b, c) == seq![(a + b) as u8, c as u8],
        spec_tetrad_type(a, b, c) == ChordType::Triad(spec_triad_quality(a + b, c)),
        spec_tetrad_root(notes, a, b, c) == spec_triad_root(notes, a + b, c),
        spec_tetrad_additions(notes, a, b, c) == Some(
            spec_additions(notes, seq![(a + b) as u8, c as u8]),
        ),
{
}

/// The table lookup behind `spec_tetrad_table`.
fn tetrad_table(x: i32, y: i32, z: i32) -> (q: TetradQuality)
    ensures
        q == spec_tetrad_table(x as int, y as int, z as int),
{
    if x == 4 && y == 3 && z == 4 {
        TetradQuality::SeventhMajor
    } else if x == 3 && y == 4 && z == 3 {
        TetradQuality::SeventhMinor
    } else if x == 4 && y == 3 && z == 3 {
        TetradQuality::SeventhDominant
    } else if x == 3 && y == 3 && z == 3 {
        TetradQuality::SeventhDiminished
    } else if x == 3 && y == 3 && z == 4 {
        TetradQuality::SeventhHalfDiminished
    } else if x == 3 && y == 4 && z == 4 {
        TetradQuality::SeventhMinorMajor
    } else if x == 4 && y == 4 && z == 3 {
        TetradQuality::SeventhAugmentedMajor
    } else if x == 4 && y == 4 && z == 2 {
        TetradQuality::SeventhAugmented
    } else if x == 3 && y == 3 && z == 5 {
        TetradQuality::SeventhDiminishedMajor
    } else if x == 4 && y == 2 && z == 4 {
        TetradQuality::SeventhDominantFlatFive
    } else if x == 4 && y == 2 && z == 5 {
        TetradQuality::SeventhMajorFlatFive
    } else {
        TetradQuality::Indeterminate
    }
}

/// Extract information about a tetrad: four notes sorted ascending and the
/// three intervals between them. Four decompositions into a triad plus
/// strangers are tried first, in a fixed order — a doubled bass, a closing
/// overtone, an added second, an added fourth; the first whose pattern holds
/// wins and its additions are attached. Only when none holds is the voicing
/// read as a seventh chord.
pub(crate) fn tetrad(notes: &Vec<Note>, intervals: &Vec<u8>) -> (r: Chord)
    requires
        notes@.len() == 4,
        spec_non_decreasing(notes@),
        intervals@ == spec_intervals(notes@),
    ensures
        r.intervals@ == spec_tetrad_intervals(
            intervals@[0] as int,
            intervals@[1] as int,
            intervals@[2] as int,
        ),
        r.chord_type == spec_tetrad_type(
            intervals@[0] as int,
            intervals@[1] as int,
            intervals@[2] as int,
        ),
        r.notes@ == notes@,
        r.root == spec_tetrad_root(
            notes@,
            intervals@[0] as int,
            intervals@[1] as int,
            intervals@[2] as int,
        ),
        spec_opt_notes(r.additions) == spec_tetrad_additions(
            notes@,
            intervals@[0] as int,
            intervals@[1] as int,
            intervals@[2] as int,
        ),
{
    let i0 = intervals[0];
    let i1 = intervals[1];
    let i2 = intervals[2];
    proof {
        assert(i0 == notes@[1].ordinal() - notes@[0].ordinal());
        assert(i1 == notes@[2].ordinal() - notes@[1].ordinal());
        assert(i2 == notes@[3].ordinal() - notes@[2].ordinal());
        lemma_ivsum_pair(i1, i2);
        lemma_ivsum_pair(i0, i1);
    }

    // Additional bass tone
    if i0 % 12 == 0 {
        let merged = two_intervals(i1, i2);
        let sub = notes_from(notes, 1);
        let mut chord = triad(&sub, &merged);
        chord.additions = Some(additions(notes, &merged));
        chord.notes = copy_notes(notes);
        return chord;
    }
    // Additional overtone
    let span = i0 as u16 + i1 as u16 + i2 as u16;
    if span % 12 == 0 {
        let merged = two_intervals(i0, i1);
        let sub = notes_take3(notes);
        let mut chord = triad(&sub, &merged);
        chord.additions = Some(additions(notes, &merged));
        chord.notes = copy_notes(notes);
        return chord;
    }
    // Additional second: an added second breaks the third interval into two seconds.
    if i0 as u16 + i1 as u16 == 3 || i0 as u16 + i1 as u16 == 4 {
        let merged = two_intervals(i0 + i1, i2);
        proof {
            lemma_ivsum_pair((i0 + i1) as u8, i2);
        }
        let mut chord = triad(notes, &merged);
        chord.additions = Some(additions(notes, &merged));
        chord.notes = copy_notes(notes);
        return chord;
    }
    // Additional fourth: an added fourth breaks the fifth interval into two seconds.
    if i1 as u16 + i2 as u16 == 3 || i1 as u16 + i2 as u16 == 4 {
        let merged = two_intervals(i0, i1 + i2);
        proof {
            lemma_ivsum_pair(i0, (i1 + i2) as u8);
        }
        let mut chord = triad(notes, &merged);
        chord.additions = Some(additions(notes, &merged));
        chord.notes = copy_notes(notes);
        return chord;
    }

    // Interval between the topmost note and the first inversion of the root
    let a = i0 as i32;
    let b = i1 as i32;
    let c = i2 as i32;
    let complementary_interval = 12 - a - b - c;

    // Try one inversion at a time, looking for the natural intervals / root position
    let q0 = tetrad_table(a, b, c);
    if !(matches!(q0, TetradQuality::Indeterminate)) {
        return Chord {
            intervals: copy_intervals(intervals),
            chord_type: ChordType::Tetrad(q0),
            notes: copy_notes(notes),
            root: Some(notes[0]),
            additions: None,
        };
    }
    let q1 = tetrad_table(b, c, complementary_interval);
    if !(matches!(q1, TetradQuality::Indeterminate)) {
        return Chord {
            intervals: copy_intervals(intervals),
            chord_type: ChordType::Tetrad(q1),
            notes: copy_notes(notes),
            root: Some(notes[1]),
            additions: None,
        };
    }
    let q2 = tetrad_table(c, complementary_interval, a);
    if !(matches!(q2, TetradQuality::Indeterminate)) {
        return Chord {
            intervals: copy_intervals(intervals),
            chord_type: ChordType::Tetrad(q2),
            notes: copy_notes(notes),
            root: Some(notes[2]),
            additions: None,
        };
    }
    let q3 = tetrad_table(complementary_interval, a, b);
    if !(matches!(q3, TetradQuality::Indeterminate)) {
        return Chord {
            intervals: copy_intervals(intervals),
            chord_type: ChordType::Tetrad(q3),
            notes: copy_notes(notes),
            root: Some(notes[3]),
            additions: None,
        };
    }

    Chord {
        intervals: copy_intervals(intervals),
        chord_type: ChordType::Tetrad(TetradQuality::Indeterminate),
        notes: copy_notes(notes),
        root: None,
        additions: None,
    }
}

/// A two-element interval vector.
fn two_intervals(x: u8, y: u8) -> (r: Vec<u8>)
    ensures
        r@ == seq![x, y],
{
    let mut r: Vec<u8> = Vec::new();
    r.push(x);
    r.push(y);
    proof {
        assert(r@ =~= seq![x, y]);
    }
    r
}

/// The notes from index `from` on.
fn notes_from(notes: &Vec<Note>, from: usize) -> (r: Vec<Note>)
    requires
        from <= notes@.len(),
    ensures
        r@ == notes@.skip(from as int),
{
    let n = notes.len();
    let mut r: Vec<Note> = Vec::new();
    let mut i: usize = from;
    while i < n
        invariant
            n == notes@.len(),
            from <= i <= n,
            r@ == notes@.subrange(from as int, i as int),
        decreases n - i,
    {
        r.push(notes[i]);
        i += 1;
        proof {
            assert(notes@.subrange(from as int, i as int) =~= notes@.subrange(
                from as int,
                i - 1,
            ).push(notes@[i - 1]));
        }
    }
    proof {
        assert(notes@.subrange(from as int, n as int) =~= notes@.skip(from as int));
    }
    r
}

/// The first three notes.
fn notes_take3(notes: &Vec<Note>) -> (r: Vec<Note>)
    requires
        notes@.len() >= 3,
    ensures
        r@ == notes@.take(3),
{
    let mut r: Vec<Note> = Vec::new();
    r.push(notes[0]);
    r.push(notes[1]);
    r.push(notes[2]);
    proof {
        assert(r@ =~= notes@.take(3));
    }
    r
}

} // verus!
