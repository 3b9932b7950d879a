use whatthechord::error::Error;
use whatthechord::note::FlatOrSharp;
use whatthechord::note::Note;

#[test]
fn test_midi_key_numbers() {
    // MIDI goes more than 1 octave lower than the regular piano keyboard
    assert_eq!(Note::CMinus1.midi_key_number(), 0);
    // C4, also known as "middle C"
    assert_eq!(Note::C4.midi_key_number(), 60);
    // A4, also known as "concert pitch"
    assert_eq!(Note::A4.midi_key_number(), 69);
    // The highest MIDI note goes more than one octave beyond the piano
    assert_eq!(Note::G9.midi_key_number(), 127);
}

#[test]
fn test_from_ordinal_roundtrip() {
    assert_eq!(Note::from_ordinal(0), Ok(Note::CMinus1));
    assert_eq!(Note::from_ordinal(24), Ok(Note::C1));
    assert_eq!(Note::from_ordinal(69), Ok(Note::A4));
    assert_eq!(Note::from_ordinal(127), Ok(Note::G9));
    assert_eq!(Note::from_ordinal(128), Err(Error::OutOfMIDIRange));
    assert_eq!(Note::from_ordinal(255), Err(Error::OutOfMIDIRange));
}

#[test]
fn test_note_names() {
    // Natural C1 is "C1"
    assert_eq!(Note::C1.name(FlatOrSharp::Sharp), String::from("C1"));
    // Sharp F1 is "F#1"
    assert_eq!(Note::FSharp1.name(FlatOrSharp::Sharp), String::from("F#1"));
    // Sharp F1 is also "Gb1"
    assert_eq!(Note::FSharp1.name(FlatOrSharp::Flat), String::from("Gb1"));
    // Sharp C9 is "C#9"
    assert_eq!(Note::CSharp9.name(FlatOrSharp::Sharp), String::from("C#9"));
    // Sharp C9 is also "Db9"
    assert_eq!(Note::CSharp9.name(FlatOrSharp::Flat), String::from("Db9"));
}

#[test]
fn test_tone_names() {
    // Natural C1 tone name is 'C'
    assert_eq!(Note::C1.tone_name(0), 'C');
    // Sharp C1 tone name is 'C'
    assert_eq!(Note::CSharp1.tone_name(0), 'C');
    // Sharp C1 tone name becomes 'D' as a flat note instead of a sharp note
    assert_eq!(Note::CSharp1.tone_name(1), 'D');
    // The letters cover the whole scale
    assert_eq!(Note::A4.tone_name(0), 'A');
    assert_eq!(Note::B4.tone_name(0), 'B');
    assert_eq!(Note::E4.tone_name(0), 'E');
    assert_eq!(Note::G4.tone_name(0), 'G');
}

#[test]
fn test_octaves() {
    assert_eq!(Note::C0.octave(), 0);
    assert_eq!(Note::C1.octave(), 1);
    assert_eq!(Note::B1.octave(), 1);
    assert_eq!(Note::C4.octave(), 4);
    assert_eq!(Note::G9.octave(), 9);
}

#[test]
fn test_is_sharp_and_is_flat() {
    assert!(!Note::C1.is_sharp());
    assert!(Note::CSharp1.is_sharp());
    assert!(!Note::E1.is_sharp());
    assert!(Note::ASharp3.is_sharp());
    assert!(Note::GSharp7.is_flat());
    assert!(!Note::B8.is_flat());
}

#[test]
fn test_organ_key_numbers() {
    // C2 is the first note in a 61-keys organ keyboard
    assert_eq!(Note::C2.organ_key_number(), Ok(1));
    // C1 does not exist in a 61-keys organ keyboard
    assert_eq!(Note::C1.organ_key_number(), Err(Error::OutOfInstrumentRange));
    // C7 is the highest note in a 61-keys organ keyboard
    assert_eq!(Note::C7.organ_key_number(), Ok(61));
    // C8 does not exist in a 61-keys organ keyboard
    assert_eq!(Note::C8.organ_key_number(), Err(Error::OutOfInstrumentRange));
}

#[test]
fn test_piano_key_numbers() {
    // A0 is the first note in an 88-keys piano keyboard
    assert_eq!(Note::A0.piano_key_number(), Ok(1));
    // C0 does not exist in an 88-keys piano keyboard
    assert_eq!(Note::C0.piano_key_number(), Err(Error::OutOfInstrumentRange));
    // C8 is the highest note in an 88-keys piano keyboard
    assert_eq!(Note::C8.piano_key_number(), Ok(88));
    // C9 does not exist in an 88-keys piano keyboard
    assert_eq!(Note::C9.piano_key_number(), Err(Error::OutOfInstrumentRange));
}

#[test]
fn test_transposed() {
    // Natural C1 becomes sharp C1 when transposed half a tone up
    assert_eq!(Note::C1.transposed(1).unwrap(), Note::CSharp1);
    // Sharp C1 becomes natural D1 when transposed half a tone up
    assert_eq!(Note::CSharp1.transposed(1).unwrap(), Note::D1);
    // Natural C1 becomes natural B0 when transposed half a tone down
    assert_eq!(Note::C1.transposed(-1).unwrap(), Note::B0);
    // Natural B0 becomes natural C1 when transposed half a tone up
    assert_eq!(Note::B0.transposed(1).unwrap(), Note::C1);
    // Natural C1 becomes natural C2 when transposed a whole octave up
    assert_eq!(Note::C1.transposed(12).unwrap(), Note::C2);
    // Sharp C1 becomes sharp C2 when transposed a whole octave up
    assert_eq!(Note::CSharp1.transposed(12).unwrap(), Note::CSharp2);
    // You cannot "underflow" the MIDI keyboard when transposing
    assert_eq!(Note::A4.transposed(-127).unwrap_err(), Error::OutOfMIDIRange);
    // You cannot "overflow" the MIDI keyboard when transposing
    assert_eq!(Note::A4.transposed(127).unwrap_err(), Error::OutOfMIDIRange);
}
