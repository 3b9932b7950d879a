use whatthechord::chord::Chord;
use whatthechord::chord::ChordType;
use whatthechord::chord::qualities::TetradQuality;
use whatthechord::chord::qualities::TriadQuality;
use whatthechord::note::Note;

#[test]
fn test_major_triad_root_position() {
    let notes = vec![Note::C1, Note::E1, Note::G1];
    let chord = Chord::from_notes(&notes);
    let expected = Chord {
        intervals: vec![4, 3],
        chord_type: ChordType::Triad(TriadQuality::Major),
        notes: notes.clone(),
        root: Some(Note::C1),
        additions: None,
    };

    assert_eq!(chord, expected);
}

#[test]
fn test_major_triad_first_inversion() {
    let notes = vec![Note::E1, Note::G1, Note::C2];
    let chord = Chord::from_notes(&notes);
    let expected = Chord {
        intervals: vec![3, 5],
        chord_type: ChordType::Triad(TriadQuality::Major),
        notes: notes.clone(),
        root: Some(Note::C2),
        additions: None,
    };

    assert_eq!(chord, expected);
}

#[test]
fn test_major_triad_second_inversion() {
    let notes = vec![Note::G1, Note::C2, Note::E2];
    let chord = Chord::from_notes(&notes);
    let expected = Chord {
        intervals: vec![5, 4],
        chord_type: ChordType::Triad(TriadQuality::Major),
        notes: notes.clone(),
        root: Some(Note::C2),
        additions: None,
    };

    assert_eq!(chord, expected);
}

#[test]
fn test_minor_triad_root_position() {
    let notes = vec![Note::C1, Note::DSharp1, Note::G1];
    let chord = Chord::from_notes(&notes);
    let expected = Chord {
        intervals: vec![3, 4],
        chord_type: ChordType::Triad(TriadQuality::Minor),
        notes: notes.clone(),
        root: Some(Note::C1),
        additions: None,
    };

    assert_eq!(chord, expected);
}

#[test]
fn test_minor_triad_first_inversion() {
    let notes = vec![Note::DSharp1, Note::G1, Note::C2];
    let chord = Chord::from_notes(&notes);
    let expected = Chord {
        intervals: vec![4, 5],
        chord_type: ChordType::Triad(TriadQuality::Minor),
        notes: notes.clone(),
        root: Some(Note::C2),
        additions: None,
    };

    assert_eq!(chord, expected);
}

#[test]
fn test_minor_triad_second_inversion() {
    let notes = vec![Note::G1, Note::C2, Note::DSharp2];
    let chord = Chord::from_notes(&notes);
    let expected = Chord {
        intervals: vec![5, 3],
        chord_type: ChordType::Triad(TriadQuality::Minor),
        notes: notes.clone(),
        root: Some(Note::C2),
        additions: None,
    };

    assert_eq!(chord, expected);
}

#[test]
fn test_diminished_triad_root_position() {
    let notes = vec![Note::C1, Note::DSharp1, Note::FSharp1];
    let chord = Chord::from_notes(&notes);
    let expected = Chord {
        intervals: vec![3, 3],
        chord_type: ChordType::Triad(TriadQuality::Diminished),
        notes: notes.clone(),
        root: Some(Note::C1),
        additions: None,
    };

    assert_eq!(chord, expected);
}

#[test]
fn test_diminished_triad_first_inversion() {
    let notes = vec![Note::DSharp1, Note::FSharp1, Note::C2];
    let chord = Chord::from_notes(&notes);
    let expected = Chord {
        intervals: vec![3, 6],
        chord_type: ChordType::Triad(TriadQuality::Diminished),
        notes: notes.clone(),
        root: Some(Note::C2),
        additions: None,
    };

    assert_eq!(chord, expected);
}

#[test]
fn test_diminished_triad_second_inversion() {
    let notes = vec![Note::FSharp1, Note::C2, Note::DSharp2];
    let chord = Chord::from_notes(&notes);
    let expected = Chord {
        intervals: vec![6, 3],
        chord_type: ChordType::Triad(TriadQuality::Diminished),
        notes: notes.clone(),
        root: Some(Note::C2),
        additions: None,
    };

    assert_eq!(chord, expected);
}

#[test]
fn test_augmented_triad_root_position() {
    let notes = vec![Note::C1, Note::E1, Note::GSharp1];
    let chord = Chord::from_notes(&notes);
    let expected = Chord {
        intervals: vec![4, 4],
        chord_type: ChordType::Triad(TriadQuality::Augmented),
        notes: notes.clone(),
        root: Some(Note::C1),
        additions: None,
    };

    assert_eq!(chord, expected);
}

#[test]
fn test_suspended_2_triad_root_position() {
    let notes = vec![Note::C1, Note::D1, Note::G1];
    let chord = Chord::from_notes(&notes);
    let expected = Chord {
        intervals: vec![2, 5],
        chord_type: ChordType::Triad(TriadQuality::Suspended(2)),
        notes: notes.clone(),
        root: Some(Note::C1),
        additions: None,
    };

    assert_eq!(chord, expected);
}

#[test]
fn test_suspended_4_triad_root_position() {
    let notes = vec![Note::C1, Note::F1, Note::G1];
    let chord = Chord::from_notes(&notes);
    let expected = Chord {
        intervals: vec![5, 2],
        chord_type: ChordType::Triad(TriadQuality::Suspended(4)),
        notes: notes.clone(),
        root: Some(Note::C1),
        additions: None,
    };

    assert_eq!(chord, expected);
}

#[test]
fn test_suspended_4_triad_second_inversion() {
    let notes = vec![Note::G1, Note::C2, Note::F2];
    let chord = Chord::from_notes(&notes);
    let expected = Chord {
        intervals: vec![5, 5],
        chord_type: ChordType::Triad(TriadQuality::Suspended(4)),
        notes: notes.clone(),
        root: Some(Note::C2),
        additions: None,
    };

    assert_eq!(chord, expected);
}

#[test]
fn test_major_seven_tetrad_root_position() {
    let notes = vec![Note::C1, Note::E1, Note::G1, Note::B1];
    let chord = Chord::from_notes(&notes);
    let expected = Chord {
        intervals: vec![4, 3, 4],
        chord_type: ChordType::Tetrad(TetradQuality::SeventhMajor),
        notes: notes.clone(),
        root: Some(Note::C1),
        additions: None,
    };

    assert_eq!(chord, expected);
}

#[test]
fn test_major_seven_tetrad_first_inversion() {
    let notes = vec![Note::E1, Note::G1, Note::B1, Note::C2];
    let chord = Chord::from_notes(&notes);
    let expected = Chord {
        intervals: vec![3, 4, 1],
        chord_type: ChordType::Tetrad(TetradQuality::SeventhMajor),
        notes: notes.clone(),
        root: Some(Note::C2),
        additions: None,
    };

    assert_eq!(chord, expected);
}

#[test]
fn test_major_seven_tetrad_second_inversion() {
    let notes = vec![Note::G1, Note::B1, Note::C2, Note::E2];
    let chord = Chord::from_notes(&notes);
    let expected = Chord {
        intervals: vec![4, 1, 4],
        chord_type: ChordType::Tetrad(TetradQuality::SeventhMajor),
        notes: notes.clone(),
        root: Some(Note::C2),
        additions: None,
    };

    assert_eq!(chord, expected);
}

#[test]
fn test_major_seven_tetrad_third_inversion() {
    let notes = vec![Note::B1, Note::C2, Note::E2, Note::G2];
    let chord = Chord::from_notes(&notes);
    let expected = Chord {
        intervals: vec![1, 4, 3],
        chord_type: ChordType::Tetrad(TetradQuality::SeventhMajor),
        notes: notes.clone(),
        root: Some(Note::C2),
        additions: None,
    };

    assert_eq!(chord, expected);
}

#[test]
fn test_major_triad_with_subtone() {
    let notes = vec![Note::C3, Note::C4, Note::E4, Note::G4];
    let chord = Chord::from_notes(&notes);
    let expected = Chord {
        intervals: vec![4, 3],
        chord_type: ChordType::Triad(TriadQuality::Major),
        notes: notes.clone(),
        root: Some(Note::C4),
        additions: Some(vec![Note::C3]),
    };

    assert_eq!(chord, expected);
}

#[test]
fn test_major_triad_with_overtone() {
    let notes = vec![Note::C4, Note::E4, Note::G4, Note::C5];
    let chord = Chord::from_notes(&notes);
    let expected = Chord {
        intervals: vec![4, 3],
        chord_type: ChordType::Triad(TriadQuality::Major),
        notes: notes.clone(),
        root: Some(Note::C4),
        additions: Some(vec![Note::C5]),
    };

    assert_eq!(chord, expected);
}

#[test]
fn test_major_triad_with_major_second() {
    let notes = vec![Note::C4, Note::D4, Note::E4, Note::G4];
    let chord = Chord::from_notes(&notes);
    let expected = Chord {
        intervals: vec![4, 3],
        chord_type: ChordType::Triad(TriadQuality::Major),
        notes: notes.clone(),
        root: Some(Note::C4),
        additions: Some(vec![Note::D4]),
    };

    assert_eq!(chord, expected);
}

#[test]
fn test_major_triad_with_minor_second() {
    let notes = vec![Note::C4, Note::CSharp4, Note::E4, Note::G4];
    let chord = Chord::from_notes(&notes);
    let expected = Chord {
        intervals: vec![4, 3],
        chord_type: ChordType::Triad(TriadQuality::Major),
        notes: notes.clone(),
        root: Some(Note::C4),
        additions: Some(vec![Note::CSharp4]),
    };

    assert_eq!(chord, expected);
}

#[test]
fn test_major_triad_with_perfect_fourth() {
    let notes = vec![Note::C4, Note::E4, Note::F4, Note::G4];
    let chord = Chord::from_notes(&notes);
    let expected = Chord {
        intervals: vec![4, 3],
        chord_type: ChordType::Triad(TriadQuality::Major),
        notes: notes.clone(),
        root: Some(Note::C4),
        additions: Some(vec![Note::F4]),
    };

    assert_eq!(chord, expected);
}

#[test]
fn test_major_triad_with_augmented_fourth() {
    let notes = vec![Note::C4, Note::E4, Note::FSharp4, Note::G4];
    let chord = Chord::from_notes(&notes);
    let expected = Chord {
        intervals: vec![4, 3],
        chord_type: ChordType::Triad(TriadQuality::Major),
        notes: notes.clone(),
        root: Some(Note::C4),
        additions: Some(vec![Note::FSharp4]),
    };

    assert_eq!(chord, expected);
}
