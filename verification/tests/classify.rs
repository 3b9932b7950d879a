use whatthechord::chord::Chord;
use whatthechord::chord::ChordType;
use whatthechord::chord::qualities::DyadQuality;
use whatthechord::chord::qualities::TetradQuality;
use whatthechord::chord::qualities::TriadQuality;
use whatthechord::note::FlatOrSharp;
use whatthechord::note::Note;

#[test]
fn test_empty_input_is_silence() {
    let notes: Vec<Note> = vec![];
    let chord = Chord::from_notes(&notes);
    let expected = Chord {
        intervals: vec![],
        chord_type: ChordType::Silence,
        notes: vec![],
        root: None,
        additions: None,
    };

    assert_eq!(chord, expected);
    assert!(chord.is_silence());
    assert_eq!(Chord::default(), expected);
}

#[test]
fn test_single_note() {
    let notes = vec![Note::C1];
    let chord = Chord::from_notes(&notes);
    let expected = Chord {
        intervals: vec![],
        chord_type: ChordType::SingleNote,
        notes: notes.clone(),
        root: Some(Note::C1),
        additions: None,
    };

    assert_eq!(chord, expected);
    assert!(chord.is_single_note());
    assert!(!chord.is_silence());
}

#[test]
fn test_major_third_dyad() {
    let notes = vec![Note::C1, Note::E1];
    let chord = Chord::from_notes(&notes);
    let expected = Chord {
        intervals: vec![4],
        chord_type: ChordType::Dyad(DyadQuality::Major(3)),
        notes: notes.clone(),
        root: Some(Note::C1),
        additions: None,
    };

    assert_eq!(chord, expected);
}

#[test]
fn test_octave_dyad() {
    let notes = vec![Note::C1, Note::C2];
    let chord = Chord::from_notes(&notes);

    assert_eq!(chord.chord_type, ChordType::Dyad(DyadQuality::Diminished(9)));
    assert_eq!(chord.root, Some(Note::C1));
    assert_eq!(chord.intervals(), vec![12]);
}

#[test]
fn test_perfect_fifth_dyad() {
    let notes = vec![Note::A4, Note::E5];
    let chord = Chord::from_notes(&notes);

    assert_eq!(chord.chord_type, ChordType::Dyad(DyadQuality::Perfect(5)));
    assert_eq!(chord.root, Some(Note::A4));
}

#[test]
fn test_very_wide_dyad_is_indeterminate() {
    let notes = vec![Note::C1, Note::C5];
    let chord = Chord::from_notes(&notes);

    assert_eq!(chord.chord_type, ChordType::Dyad(DyadQuality::Indeterminate));
    assert_eq!(chord.root, Some(Note::C1));
    assert_eq!(chord.intervals(), vec![48]);
}

#[test]
fn test_indeterminate_triad_has_no_root() {
    // No rotation of (1, 1) matches any triad quality.
    let notes = vec![Note::C4, Note::CSharp4, Note::D4];
    let chord = Chord::from_notes(&notes);

    assert_eq!(chord.chord_type, ChordType::Triad(TriadQuality::Indeterminate));
    assert_eq!(chord.root, None);
    assert_eq!(chord.additions, None);
    assert_eq!(chord.intervals(), vec![1, 1]);
}

#[test]
fn test_dominant_seven_tetrad() {
    let notes = vec![Note::C1, Note::E1, Note::G1, Note::ASharp1];
    let chord = Chord::from_notes(&notes);

    assert_eq!(chord.chord_type, ChordType::Tetrad(TetradQuality::SeventhDominant));
    assert_eq!(chord.root, Some(Note::C1));
    assert_eq!(chord.intervals(), vec![4, 3, 3]);
    assert_eq!(chord.additions, None);
}

#[test]
fn test_minor_seven_tetrad() {
    let notes = vec![Note::C1, Note::DSharp1, Note::G1, Note::ASharp1];
    let chord = Chord::from_notes(&notes);

    assert_eq!(chord.chord_type, ChordType::Tetrad(TetradQuality::SeventhMinor));
    assert_eq!(chord.root, Some(Note::C1));
    assert_eq!(chord.intervals(), vec![3, 4, 3]);
}

#[test]
fn test_indeterminate_tetrad_has_no_root() {
    // Gaps (1, 1, 1): no decomposition pattern holds and no rotation matches.
    let notes = vec![Note::C4, Note::CSharp4, Note::D4, Note::DSharp4];
    let chord = Chord::from_notes(&notes);

    assert_eq!(chord.chord_type, ChordType::Tetrad(TetradQuality::Indeterminate));
    assert_eq!(chord.root, None);
    assert_eq!(chord.additions, None);
    assert_eq!(chord.intervals(), vec![1, 1, 1]);
}

#[test]
fn test_five_unique_pitches_are_unknown() {
    let notes = vec![Note::C1, Note::D1, Note::E1, Note::F1, Note::G1];
    let chord = Chord::from_notes(&notes);
    let expected = Chord {
        intervals: vec![2, 2, 1, 2],
        chord_type: ChordType::Unknown,
        notes: notes.clone(),
        root: None,
        additions: None,
    };

    assert_eq!(chord, expected);
}

#[test]
fn test_duplicated_input_classifies_the_same() {
    let notes = vec![Note::C1, Note::E1, Note::G1];
    let doubled = vec![Note::C1, Note::E1, Note::G1, Note::C1, Note::E1, Note::G1];
    let chord = Chord::from_notes(&notes);
    let chord_doubled = Chord::from_notes(&doubled);

    assert_eq!(chord_doubled.chord_type, chord.chord_type);
    assert_eq!(chord_doubled.root, chord.root);
    assert_eq!(chord_doubled.additions, chord.additions);
    assert_eq!(chord_doubled.intervals(), chord.intervals());
    // Only the raw notes field differs.
    assert_eq!(chord.notes, notes);
    assert_eq!(chord_doubled.notes, doubled);
}

#[test]
fn test_duplicated_input_with_additions_classifies_the_same() {
    let notes = vec![Note::C4, Note::E4, Note::G4, Note::C5];
    let doubled = vec![
        Note::C4,
        Note::E4,
        Note::G4,
        Note::C5,
        Note::C4,
        Note::E4,
        Note::G4,
        Note::C5,
    ];
    let chord = Chord::from_notes(&notes);
    let chord_doubled = Chord::from_notes(&doubled);

    assert_eq!(chord_doubled.chord_type, ChordType::Triad(TriadQuality::Major));
    assert_eq!(chord_doubled.chord_type, chord.chord_type);
    assert_eq!(chord_doubled.root, chord.root);
    assert_eq!(chord_doubled.additions, Some(vec![Note::C5]));
    assert_eq!(chord_doubled.additions, chord.additions);
}

#[test]
fn test_added_second_wins_over_added_fourth() {
    // Gaps (3, 1, 3): both the added-second (3 + 1 = 4) and the added-fourth
    // (1 + 3 = 4) patterns hold; the added second stands first in the fixed
    // order, so the bottom gaps merge into a major third.
    let notes = vec![Note::C4, Note::DSharp4, Note::E4, Note::G4];
    let chord = Chord::from_notes(&notes);
    let expected = Chord {
        intervals: vec![4, 3],
        chord_type: ChordType::Triad(TriadQuality::Major),
        notes: notes.clone(),
        root: Some(Note::C4),
        additions: Some(vec![Note::DSharp4]),
    };

    assert_eq!(chord, expected);
}

#[test]
fn test_unsorted_input_is_sorted_before_matching() {
    let notes = vec![Note::G1, Note::C1, Note::E1];
    let chord = Chord::from_notes(&notes);

    assert_eq!(chord.chord_type, ChordType::Triad(TriadQuality::Major));
    assert_eq!(chord.root, Some(Note::C1));
    assert_eq!(chord.intervals(), vec![4, 3]);
    assert_eq!(chord.notes, notes);
}

#[test]
fn test_chord_name_major() {
    let notes = vec![Note::C1, Note::E1, Note::G1];
    let chord = Chord::from_notes(&notes);
    assert_eq!(chord.name(FlatOrSharp::Sharp).unwrap(), "C");
}

#[test]
fn test_chord_name_sharp_major() {
    let notes = vec![Note::CSharp1, Note::F1, Note::GSharp1];
    let chord = Chord::from_notes(&notes);
    assert_eq!(chord.name(FlatOrSharp::Sharp).unwrap(), "C#");
    let chord = Chord::from_notes(&notes);
    assert_eq!(chord.name(FlatOrSharp::Flat).unwrap(), "Db");
}

#[test]
fn test_chord_name_minor() {
    let notes = vec![Note::C1, Note::DSharp1, Note::G1];
    let chord = Chord::from_notes(&notes);
    assert_eq!(chord.name(FlatOrSharp::Sharp).unwrap(), "Cm");

    let notes = vec![Note::CSharp1, Note::E1, Note::GSharp1];
    let chord = Chord::from_notes(&notes);
    assert_eq!(chord.name(FlatOrSharp::Sharp).unwrap(), "C#m");
    let chord = Chord::from_notes(&notes);
    assert_eq!(chord.name(FlatOrSharp::Flat).unwrap(), "Dbm");
}

#[test]
fn test_chord_name_suspended() {
    let notes = vec![Note::C1, Note::D1, Note::G1];
    let chord = Chord::from_notes(&notes);
    assert_eq!(chord.name(FlatOrSharp::Sharp).unwrap(), "Csus2");
}

#[test]
fn test_chord_name_without_root() {
    let notes = vec![Note::C1, Note::D1, Note::E1, Note::F1, Note::G1];
    let chord = Chord::from_notes(&notes);
    assert_eq!(chord.name(FlatOrSharp::Sharp), None);
}

#[test]
fn test_tetrad_name_stops_at_the_root() {
    let notes = vec![Note::C1, Note::E1, Note::G1, Note::B1];
    let chord = Chord::from_notes(&notes);
    assert_eq!(chord.name(FlatOrSharp::Sharp).unwrap(), "C");
}

#[test]
fn test_intervals_getter() {
    let silence_interval = Chord::default().intervals();
    assert_eq!(silence_interval, vec![]);

    let c1_interval = Chord::from_notes(&vec![Note::C1]).intervals();
    assert_eq!(c1_interval, vec![]);

    let c_major_notes = vec![Note::C1, Note::E1, Note::G1];
    let c_major_interval = Chord::from_notes(&c_major_notes).intervals();
    assert_eq!(c_major_interval, vec![4u8, 3u8]);
}

#[test]
fn test_is_silence() {
    assert!(Chord::default().is_silence());
    assert!(!Chord::from_notes(&vec![Note::C1]).is_silence());
    assert!(!Chord::from_notes(&vec![Note::C1, Note::E1, Note::G1]).is_silence());
}

#[test]
fn test_is_single_note() {
    assert!(!Chord::default().is_single_note());
    assert!(Chord::from_notes(&vec![Note::C1]).is_single_note());
    assert!(!Chord::from_notes(&vec![Note::C1, Note::E1, Note::G1]).is_single_note());
}

#[test]
fn test_is_triad() {
    assert!(!Chord::default().is_triad());
    assert!(!Chord::from_notes(&vec![Note::C1]).is_triad());
    assert!(Chord::from_notes(&vec![Note::C1, Note::E1, Note::G1]).is_triad());
    assert!(Chord::from_notes(&vec![Note::E1, Note::G1, Note::C2]).is_triad());
    assert!(Chord::from_notes(&vec![Note::DSharp1, Note::G1, Note::C2]).is_triad());
}
