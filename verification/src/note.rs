use vstd::prelude::*;

use crate::digits::spec_digit_char;
use crate::digits::digit_str;
use crate::error::Error;

verus! {

/// One discrete semitone step on the 128-step equal-tempered scale, numbered
/// as MIDI key numbers are: `CMinus1` is key 0, `G9` is key 127.
#[derive(Copy, Clone, Debug, Eq, PartialEq)]
pub enum Note {
    CMinus1,
    CSharpMinus1,
    DMinus1,
    DSharpMinus1,
    EMinus1,
    FMinus1,
    FSharpMinus1,
    GMinus1,
    GSharpMinus1,
    AMinus1,
    ASharpMinus1,
    BMinus1,
    C0,
    CSharp0,
    D0,
    DSharp0,
    E0,
    F0,
    FSharp0,
    G0,
    GSharp0,
    A0,
    ASharp0,
    B0,
    C1,
    CSharp1,
    D1,
    DSharp1,
    E1,
    F1,
    FSharp1,
    G1,
    GSharp1,
    A1,
    ASharp1,
    B1,
    C2,
    CSharp2,
    D2,
    DSharp2,
    E2,
    F2,
    FSharp2,
    G2,
    GSharp2,
    A2,
    ASharp2,
    B2,
    C3,
    CSharp3,
    D3,
    DSharp3,
    E3,
    F3,
    FSharp3,
    G3,
    GSharp3,
    A3,
    ASharp3,
    B3,
    C4,
    CSharp4,
    D4,
    DSharp4,
    E4,
    F4,
    FSharp4,
    G4,
    GSharp4,
    A4,
    ASharp4,
    B4,
    C5,
    CSharp5,
    D5,
    DSharp5,
    E5,
    F5,
    FSharp5,
    G5,
    GSharp5,
    A5,
    ASharp5,
    B5,
    C6,
    CSharp6,
    D6,
    DSharp6,
    E6,
    F6,
    FSharp6,
    G6,
    GSharp6,
    A6,
    ASharp6,
    B6,
    C7,
    CSharp7,
    D7,
    DSharp7,
    E7,
    F7,
    FSharp7,
    G7,
    GSharp7,
    A7,
    ASharp7,
    B7,
    C8,
    CSharp8,
    D8,
    DSharp8,
    E8,
    F8,
    FSharp8,
    G8,
    GSharp8,
    A8,
    ASharp8,
    B8,
    C9,
    CSharp9,
    D9,
    DSharp9,
    E9,
    F9,
    FSharp9,
    G9,
}

/// Flag for telling whether a note with accidentals should be called flat ("b") or sharp ("#").
#[derive(Copy, Clone)]
pub enum FlatOrSharp {
    /// Flat notes take the name of the natural tone above.
    Flat,
    /// Sharp notes take the name of the natural tone below.
    Sharp,
}

impl Note {
    /// The position of this note on the 128-step scale: 0 for `CMinus1` up to 127 for `G9`.
    pub open spec fn ordinal(self) -> int {
        match self {
            Note::CMinus1 => 0,
            Note::CSharpMinus1 => 1,
            Note::DMinus1 => 2,
            Note::DSharpMinus1 => 3,
            Note::EMinus1 => 4,
            Note::FMinus1 => 5,
            Note::FSharpMinus1 => 6,
            Note::GMinus1 => 7,
            Note::GSharpMinus1 => 8,
            Note::AMinus1 => 9,
            Note::ASharpMinus1 => 10,
            Note::BMinus1 => 11,
            Note::C0 => 12,
            Note::CSharp0 => 13,
            Note::D0 => 14,
            Note::DSharp0 => 15,
            Note::E0 => 16,
            Note::F0 => 17,
            Note::FSharp0 => 18,
            Note::G0 => 19,
            Note::GSharp0 => 20,
            Note::A0 => 21,
            Note::ASharp0 => 22,
            Note::B0 => 23,
            Note::C1 => 24,
            Note::CSharp1 => 25,
            Note::D1 => 26,
            Note::DSharp1 => 27,
            Note::E1 => 28,
            Note::F1 => 29,
            Note::FSharp1 => 30,
            Note::G1 => 31,
            Note::GSharp1 => 32,
            Note::A1 => 33,
            Note::ASharp1 => 34,
            Note::B1 => 35,
            Note::C2 => 36,
            Note::CSharp2 => 37,
            Note::D2 => 38,
            Note::DSharp2 => 39,
            Note::E2 => 40,
            Note::F2 => 41,
            Note::FSharp2 => 42,
            Note::G2 => 43,
            Note::GSharp2 => 44,
            Note::A2 => 45,
            Note::ASharp2 => 46,
            Note::B2 => 47,
            Note::C3 => 48,
            Note::CSharp3 => 49,
            Note::D3 => 50,
            Note::DSharp3 => 51,
            Note::E3 => 52,
            Note::F3 => 53,
            Note::FSharp3 => 54,
            Note::G3 => 55,
            Note::GSharp3 => 56,
            Note::A3 => 57,
            Note::ASharp3 => 58,
            Note::B3 => 59,
            Note::C4 => 60,
            Note::CSharp4 => 61,
            Note::D4 => 62,
            Note::DSharp4 => 63,
            Note::E4 => 64,
            Note::F4 => 65,
            Note::FSharp4 => 66,
            Note::G4 => 67,
            Note::GSharp4 => 68,
            Note::A4 => 69,
            Note::ASharp4 => 70,
            Note::B4 => 71,
            Note::C5 => 72,
            Note::CSharp5 => 73,
            Note::D5 => 74,
            Note::DSharp5 => 75,
            Note::E5 => 76,
            Note::F5 => 77,
            Note::FSharp5 => 78,
            Note::G5 => 79,
            Note::GSharp5 => 80,
            Note::A5 => 81,
            Note::ASharp5 => 82,
            Note::B5 => 83,
            Note::C6 => 84,
            Note::CSharp6 => 85,
            Note::D6 => 86,
            Note::DSharp6 => 87,
            Note::E6 => 88,
            Note::F6 => 89,
            Note::FSharp6 => 90,
            Note::G6 => 91,
            Note::GSharp6 => 92,
            Note::A6 => 93,
            Note::ASharp6 => 94,
            Note::B6 => 95,
            Note::C7 => 96,
            Note::CSharp7 => 97,
            Note::D7 => 98,
            Note::DSharp7 => 99,
            Note::E7 => 100,
            Note::F7 => 101,
            Note::FSharp7 => 102,
            Note::G7 => 103,
            Note::GSharp7 => 104,
            Note::A7 => 105,
            Note::ASharp7 => 106,
            Note::B7 => 107,
            Note::C8 => 108,
            Note::CSharp8 => 109,
            Note::D8 => 110,
            Note::DSharp8 => 111,
            Note::E8 => 112,
            Note::F8 => 113,
            Note::FSharp8 => 114,
            Note::G8 => 115,
            Note::GSharp8 => 116,
            Note::A8 => 117,
            Note::ASharp8 => 118,
            Note::B8 => 119,
            Note::C9 => 120,
            Note::CSharp9 => 121,
            Note::D9 => 122,
            Note::DSharp9 => 123,
            Note::E9 => 124,
            Note::F9 => 125,
            Note::FSharp9 => 126,
            Note::G9 => 127,
        }
    }

    /// The note sitting at a given position of the scale; positions off the
    /// scale fall onto its topmost note, and no caller relies on them.
    pub open spec fn spec_from_ordinal(n: int) -> Note {
                if n == 0 {
            Note::CMinus1
        } else         if n == 1 {
            Note::CSharpMinus1
        } else         if n == 2 {
            Note::DMinus1
        } else         if n == 3 {
            Note::DSharpMinus1
        } else         if n == 4 {
            Note::EMinus1
        } else         if n == 5 {
            Note::FMinus1
        } else         if n == 6 {
            Note::FSharpMinus1
        } else         if n == 7 {
            Note::GMinus1
        } else         if n == 8 {
            Note::GSharpMinus1
        } else         if n == 9 {
            Note::AMinus1
        } else         if n == 10 {
            Note::ASharpMinus1
        } else         if n == 11 {
            Note::BMinus1
        } else         if n == 12 {
            Note::C0
        } else         if n == 13 {
            Note::CSharp0
        } else         if n == 14 {
            Note::D0
        } else         if n == 15 {
            Note::DSharp0
        } else         if n == 16 {
            Note::E0
        } else         if n == 17 {
            Note::F0
        } else         if n == 18 {
            Note::FSharp0
        } else         if n == 19 {
            Note::G0
        } else         if n == 20 {
            Note::GSharp0
        } else         if n == 21 {
            Note::A0
        } else         if n == 22 {
            Note::ASharp0
        } else         if n == 23 {
            Note::B0
        } else         if n == 24 {
            Note::C1
        } else         if n == 25 {
            Note::CSharp1
        } else         if n == 26 {
            Note::D1
        } else         if n == 27 {
            Note::DSharp1
        } else         if n == 28 {
            Note::E1
        } else         if n == 29 {
            Note::F1
        } else         if n == 30 {
            Note::FSharp1
        } else         if n == 31 {
            Note::G1
        } else         if n == 32 {
            Note::GSharp1
        } else         if n == 33 {
            Note::A1
        } else         if n == 34 {
            Note::ASharp1
        } else         if n == 35 {
            Note::B1
        } else         if n == 36 {
            Note::C2
        } else         if n == 37 {
            Note::CSharp2
        } else         if n == 38 {
            Note::D2
        } else         if n == 39 {
            Note::DSharp2
        } else         if n == 40 {
            Note::E2
        } else         if n == 41 {
            Note::F2
        } else         if n == 42 {
            Note::FSharp2
        } else         if n == 43 {
            Note::G2
        } else         if n == 44 {
            Note::GSharp2
        } else         if n == 45 {
            Note::A2
        } else         if n == 46 {
            Note::ASharp2
        } else         if n == 47 {
            Note::B2
        } else         if n == 48 {
            Note::C3
        } else         if n == 49 {
            Note::CSharp3
        } else         if n == 50 {
            Note::D3
        } else         if n == 51 {
            Note::DSharp3
        } else         if n == 52 {
            Note::E3
        } else         if n == 53 {
            Note::F3
        } else         if n == 54 {
            Note::FSharp3
        } else         if n == 55 {
            Note::G3
        } else         if n == 56 {
            Note::GSharp3
        } else         if n == 57 {
            Note::A3
        } else         if n == 58 {
            Note::ASharp3
        } else         if n == 59 {
            Note::B3
        } else         if n == 60 {
            Note::C4
        } else         if n == 61 {
            Note::CSharp4
        } else         if n == 62 {
            Note::D4
        } else         if n == 63 {
            Note::DSharp4
        } else         if n == 64 {
            Note::E4
        } else         if n == 65 {
            Note::F4
        } else         if n == 66 {
            Note::FSharp4
        } else         if n == 67 {
            Note::G4
        } else         if n == 68 {
            Note::GSharp4
        } else         if n == 69 {
            Note::A4
        } else         if n == 70 {
            Note::ASharp4
        } else         if n == 71 {
            Note::B4
        } else         if n == 72 {
            Note::C5
        } else         if n == 73 {
            Note::CSharp5
        } else         if n == 74 {
            Note::D5
        } else         if n == 75 {
            Note::DSharp5
        } else         if n == 76 {
            Note::E5
        } else         if n == 77 {
            Note::F5
        } else         if n == 78 {
            Note::FSharp5
        } else         if n == 79 {
            Note::G5
        } else         if n == 80 {
            Note::GSharp5
        } else         if n == 81 {
            Note::A5
        } else         if n == 82 {
            Note::ASharp5
        } else         if n == 83 {
            Note::B5
        } else         if n == 84 {
            Note::C6
        } else         if n == 85 {
            Note::CSharp6
        } else         if n == 86 {
            Note::D6
        } else         if n == 87 {
            Note::DSharp6
        } else         if n == 88 {
            Note::E6
        } else         if n == 89 {
            Note::F6
        } else         if n == 90 {
            Note::FSharp6
        } else         if n == 91 {
            Note::G6
        } else         if n == 92 {
            Note::GSharp6
        } else         if n == 93 {
            Note::A6
        } else         if n == 94 {
            Note::ASharp6
        } else         if n == 95 {
            Note::B6
        } else         if n == 96 {
            Note::C7
        } else         if n == 97 {
            Note::CSharp7
        } else         if n == 98 {
            Note::D7
        } else         if n == 99 {
            Note::DSharp7
        } else         if n == 100 {
            Note::E7
        } else         if n == 101 {
            Note::F7
        } else         if n == 102 {
            Note::FSharp7
        } else         if n == 103 {
            Note::G7
        } else         if n == 104 {
            Note::GSharp7
        } else         if n == 105 {
            Note::A7
        } else         if n == 106 {
            Note::ASharp7
        } else         if n == 107 {
            Note::B7
        } else         if n == 108 {
            Note::C8
        } else         if n == 109 {
            Note::CSharp8
        } else         if n == 110 {
            Note::D8
        } else         if n == 111 {
            Note::DSharp8
        } else         if n == 112 {
            Note::E8
        } else         if n == 113 {
            Note::F8
        } else         if n == 114 {
            Note::FSharp8
        } else         if n == 115 {
            Note::G8
        } else         if n == 116 {
            Note::GSharp8
        } else         if n == 117 {
            Note::A8
        } else         if n == 118 {
            Note::ASharp8
        } else         if n == 119 {
            Note::B8
        } else         if n == 120 {
            Note::C9
        } else         if n == 121 {
            Note::CSharp9
        } else         if n == 122 {
            Note::D9
        } else         if n == 123 {
            Note::DSharp9
        } else         if n == 124 {
            Note::E9
        } else         if n == 125 {
            Note::F9
        } else         if n == 126 {
            Note::FSharp9
        } else {
            Note::G9
        }
    }

    /// Every note's ordinal lies on the 128-step scale.
    pub broadcast proof fn lemma_ordinal_range(self)
        ensures
            0 <= #[trigger] self.ordinal() < 128,
    {
    }

    /// Reading a note's ordinal and looking the ordinal up again yields the note.
    pub proof fn lemma_ordinal_roundtrip(self)
        ensures
            Note::spec_from_ordinal(self.ordinal()) == self,
    {
    }

    /// Looking up a position on the scale yields the note whose ordinal is
    /// that position.
    pub proof fn lemma_from_ordinal_ordinal(n: int)
        requires
            0 <= n < 128,
        ensures
            Note::spec_from_ordinal(n).ordinal() == n,
    {
    }

    /// The MIDI key number (0-127) of a note.
    pub fn midi_key_number(self) -> (r: u8)
        ensures
            r == self.ordinal(),
    {
        match self {
            Note::CMinus1 => 0u8,
            Note::CSharpMinus1 => 1u8,
            Note::DMinus1 => 2u8,
            Note::DSharpMinus1 => 3u8,
            Note::EMinus1 => 4u8,
            Note::FMinus1 => 5u8,
            Note::FSharpMinus1 => 6u8,
            Note::GMinus1 => 7u8,
            Note::GSharpMinus1 => 8u8,
            Note::AMinus1 => 9u8,
            Note::ASharpMinus1 => 10u8,
            Note::BMinus1 => 11u8,
            Note::C0 => 12u8,
            Note::CSharp0 => 13u8,
            Note::D0 => 14u8,
            Note::DSharp0 => 15u8,
            Note::E0 => 16u8,
            Note::F0 => 17u8,
            Note::FSharp0 => 18u8,
            Note::G0 => 19u8,
            Note::GSharp0 => 20u8,
            Note::A0 => 21u8,
            Note::ASharp0 => 22u8,
            Note::B0 => 23u8,
            Note::C1 => 24u8,
            Note::CSharp1 => 25u8,
            Note::D1 => 26u8,
            Note::DSharp1 => 27u8,
            Note::E1 => 28u8,
            Note::F1 => 29u8,
            Note::FSharp1 => 30u8,
            Note::G1 => 31u8,
            Note::GSharp1 => 32u8,
            Note::A1 => 33u8,
            Note::ASharp1 => 34u8,
            Note::B1 => 35u8,
            Note::C2 => 36u8,
            Note::CSharp2 => 37u8,
            Note::D2 => 38u8,
            Note::DSharp2 => 39u8,
            Note::E2 => 40u8,
            Note::F2 => 41u8,
            Note::FSharp2 => 42u8,
            Note::G2 => 43u8,
            Note::GSharp2 => 44u8,
            Note::A2 => 45u8,
            Note::ASharp2 => 46u8,
            Note::B2 => 47u8,
            Note::C3 => 48u8,
            Note::CSharp3 => 49u8,
            Note::D3 => 50u8,
            Note::DSharp3 => 51u8,
            Note::E3 => 52u8,
            Note::F3 => 53u8,
            Note::FSharp3 => 54u8,
            Note::G3 => 55u8,
            Note::GSharp3 => 56u8,
            Note::A3 => 57u8,
            Note::ASharp3 => 58u8,
            Note::B3 => 59u8,
            Note::C4 => 60u8,
            Note::CSharp4 => 61u8,
            Note::D4 => 62u8,
            Note::DSharp4 => 63u8,
            Note::E4 => 64u8,
            Note::F4 => 65u8,
            Note::FSharp4 => 66u8,
            Note::G4 => 67u8,
            Note::GSharp4 => 68u8,
            Note::A4 => 69u8,
            Note::ASharp4 => 70u8,
            Note::B4 => 71u8,
            Note::C5 => 72u8,
            Note::CSharp5 => 73u8,
            Note::D5 => 74u8,
            Note::DSharp5 => 75u8,
            Note::E5 => 76u8,
            Note::F5 => 77u8,
            Note::FSharp5 => 78u8,
            Note::G5 => 79u8,
            Note::GSharp5 => 80u8,
            Note::A5 => 81u8,
            Note::ASharp5 => 82u8,
            Note::B5 => 83u8,
            Note::C6 => 84u8,
            Note::CSharp6 => 85u8,
            Note::D6 => 86u8,
            Note::DSharp6 => 87u8,
            Note::E6 => 88u8,
            Note::F6 => 89u8,
            Note::FSharp6 => 90u8,
            Note::G6 => 91u8,
            Note::GSharp6 => 92u8,
            Note::A6 => 93u8,
            Note::ASharp6 => 94u8,
            Note::B6 => 95u8,
            Note::C7 => 96u8,
            Note::CSharp7 => 97u8,
            Note::D7 => 98u8,
            Note::DSharp7 => 99u8,
            Note::E7 => 100u8,
            Note::F7 => 101u8,
            Note::FSharp7 => 102u8,
            Note::G7 => 103u8,
            Note::GSharp7 => 104u8,
            Note::A7 => 105u8,
            Note::ASharp7 => 106u8,
            Note::B7 => 107u8,
            Note::C8 => 108u8,
            Note::CSharp8 => 109u8,
            Note::D8 => 110u8,
            Note::DSharp8 => 111u8,
            Note::E8 => 112u8,
            Note::F8 => 113u8,
            Note::FSharp8 => 114u8,
            Note::G8 => 115u8,
            Note::GSharp8 => 116u8,
            Note::A8 => 117u8,
            Note::ASharp8 => 118u8,
            Note::B8 => 119u8,
            Note::C9 => 120u8,
            Note::CSharp9 => 121u8,
            Note::D9 => 122u8,
            Note::DSharp9 => 123u8,
            Note::E9 => 124u8,
            Note::F9 => 125u8,
            Note::FSharp9 => 126u8,
            Note::G9 => 127u8,
        }
    }

    /// The note carrying a given MIDI key number, or an error for numbers
    /// beyond the top of the scale.
    pub fn from_ordinal(n: u8) -> (r: Result<Note, Error>)
        ensures
            n < 128 ==> r == Ok::<Note, Error>(Note::spec_from_ordinal(n as int)),
            n >= 128 ==> r == Err::<Note, Error>(Error::OutOfMIDIRange),
    {
        match n {
            0u8 => Ok(Note::CMinus1),
            1u8 => Ok(Note::CSharpMinus1),
            2u8 => Ok(Note::DMinus1),
            3u8 => Ok(Note::DSharpMinus1),
            4u8 => Ok(Note::EMinus1),
            5u8 => Ok(Note::FMinus1),
            6u8 => Ok(Note::FSharpMinus1),
            7u8 => Ok(Note::GMinus1),
            8u8 => Ok(Note::GSharpMinus1),
            9u8 => Ok(Note::AMinus1),
            10u8 => Ok(Note::ASharpMinus1),
            11u8 => Ok(Note::BMinus1),
            12u8 => Ok(Note::C0),
            13u8 => Ok(Note::CSharp0),
            14u8 => Ok(Note::D0),
            15u8 => Ok(Note::DSharp0),
            16u8 => Ok(Note::E0),
            17u8 => Ok(Note::F0),
            18u8 => Ok(Note::FSharp0),
            19u8 => Ok(Note::G0),
            20u8 => Ok(Note::GSharp0),
            21u8 => Ok(Note::A0),
            22u8 => Ok(Note::ASharp0),
            23u8 => Ok(Note::B0),
            24u8 => Ok(Note::C1),
            25u8 => Ok(Note::CSharp1),
            26u8 => Ok(Note::D1),
            27u8 => Ok(Note::DSharp1),
            28u8 => Ok(Note::E1),
            29u8 => Ok(Note::F1),
            30u8 => Ok(Note::FSharp1),
            31u8 => Ok(Note::G1),
            32u8 => Ok(Note::GSharp1),
            33u8 => Ok(Note::A1),
            34u8 => Ok(Note::ASharp1),
            35u8 => Ok(Note::B1),
            36u8 => Ok(Note::C2),
            37u8 => Ok(Note::CSharp2),
            38u8 => Ok(Note::D2),
            39u8 => Ok(Note::DSharp2),
            40u8 => Ok(Note::E2),
            41u8 => Ok(Note::F2),
            42u8 => Ok(Note::FSharp2),
            43u8 => Ok(Note::G2),
            44u8 => Ok(Note::GSharp2),
            45u8 => Ok(Note::A2),
            46u8 => Ok(Note::ASharp2),
            47u8 => Ok(Note::B2),
            48u8 => Ok(Note::C3),
            49u8 => Ok(Note::CSharp3),
            50u8 => Ok(Note::D3),
            51u8 => Ok(Note::DSharp3),
            52u8 => Ok(Note::E3),
            53u8 => Ok(Note::F3),
            54u8 => Ok(Note::FSharp3),
            55u8 => Ok(Note::G3),
            56u8 => Ok(Note::GSharp3),
            57u8 => Ok(Note::A3),
            58u8 => Ok(Note::ASharp3),
            59u8 => Ok(Note::B3),
            60u8 => Ok(Note::C4),
            61u8 => Ok(Note::CSharp4),
            62u8 => Ok(Note::D4),
            63u8 => Ok(Note::DSharp4),
            64u8 => Ok(Note::E4),
            65u8 => Ok(Note::F4),
            66u8 => Ok(Note::FSharp4),
            67u8 => Ok(Note::G4),
            68u8 => Ok(Note::GSharp4),
            69u8 => Ok(Note::A4),
            70u8 => Ok(Note::ASharp4),
            71u8 => Ok(Note::B4),
            72u8 => Ok(Note::C5),
            73u8 => Ok(Note::CSharp5),
            74u8 => Ok(Note::D5),
            75u8 => Ok(Note::DSharp5),
            76u8 => Ok(Note::E5),
            77u8 => Ok(Note::F5),
            78u8 => Ok(Note::FSharp5),
            79u8 => Ok(Note::G5),
            80u8 => Ok(Note::GSharp5),
            81u8 => Ok(Note::A5),
            82u8 => Ok(Note::ASharp5),
            83u8 => Ok(Note::B5),
            84u8 => Ok(Note::C6),
            85u8 => Ok(Note::CSharp6),
            86u8 => Ok(Note::D6),
            87u8 => Ok(Note::DSharp6),
            88u8 => Ok(Note::E6),
            89u8 => Ok(Note::F6),
            90u8 => Ok(Note::FSharp6),
            91u8 => Ok(Note::G6),
            92u8 => Ok(Note::GSharp6),
            93u8 => Ok(Note::A6),
            94u8 => Ok(Note::ASharp6),
            95u8 => Ok(Note::B6),
            96u8 => Ok(Note::C7),
            97u8 => Ok(Note::CSharp7),
            98u8 => Ok(Note::D7),
            99u8 => Ok(Note::DSharp7),
            100u8 => Ok(Note::E7),
            101u8 => Ok(Note::F7),
            102u8 => Ok(Note::FSharp7),
            103u8 => Ok(Note::G7),
            104u8 => Ok(Note::GSharp7),
            105u8 => Ok(Note::A7),
            106u8 => Ok(Note::ASharp7),
            107u8 => Ok(Note::B7),
            108u8 => Ok(Note::C8),
            109u8 => Ok(Note::CSharp8),
            110u8 => Ok(Note::D8),
            111u8 => Ok(Note::DSharp8),
            112u8 => Ok(Note::E8),
            113u8 => Ok(Note::F8),
            114u8 => Ok(Note::FSharp8),
            115u8 => Ok(Note::G8),
            116u8 => Ok(Note::GSharp8),
            117u8 => Ok(Note::A8),
            118u8 => Ok(Note::ASharp8),
            119u8 => Ok(Note::B8),
            120u8 => Ok(Note::C9),
            121u8 => Ok(Note::CSharp9),
            122u8 => Ok(Note::D9),
            123u8 => Ok(Note::DSharp9),
            124u8 => Ok(Note::E9),
            125u8 => Ok(Note::F9),
            126u8 => Ok(Note::FSharp9),
            127u8 => Ok(Note::G9),
            _ => Err(Error::OutOfMIDIRange),
        }
    }

    /// The octave a note belongs to, as musicians number them (`C4` is octave 4,
    /// the scale's lowest octave would be -1). Notes of that lowest octave are
    /// left out, their number having no place in a `u8`.
    pub fn octave(self) -> (r: u8)
        requires
            self.ordinal() >= 12,
        ensures
            r == self.ordinal() / 12 - 1,
    {
        let midi_key_number = self.midi_key_number();

        midi_key_number / 12 - 1
    }

    /// Whether this note is one of the five altered steps of its octave.
    pub open spec fn spec_is_sharp(self) -> bool {
        let position_in_octave = self.ordinal() % 12;
        position_in_octave == 1 || position_in_octave == 3 || position_in_octave == 6
            || position_in_octave == 8 || position_in_octave == 10
    }

    pub fn is_sharp(self) -> (r: bool)
        ensures
            r == self.spec_is_sharp(),
    {
        let position_in_octave = self.midi_key_number() % 12;

        position_in_octave == 1 || position_in_octave == 3 || position_in_octave == 6
            || position_in_octave == 8 || position_in_octave == 10
    }

    /// Every altered step can equally be spelled as a flat.
    pub fn is_flat(self) -> (r: bool)
        ensures
            r == self.spec_is_sharp(),
    {
        self.is_sharp()
    }

    /// Which of the seven letter names a note takes, counted from 'A', after
    /// shifting the note up by `transpose_half_tones`.
    pub open spec fn spec_tone_index(self, transpose_half_tones: int) -> int {
        let relative_to_a = (self.ordinal() + transpose_half_tones + 3) % 12;
        if relative_to_a < 7 && relative_to_a % 2 == 0 {
            relative_to_a / 2
        } else {
            relative_to_a / 2 + 1
        }
    }

    /// The letter for `spec_tone_index`.
    pub open spec fn spec_tone_char(self, transpose_half_tones: int) -> char {
        let offset = self.spec_tone_index(transpose_half_tones);
        if offset == 0 {
            'A'
        } else if offset == 1 {
            'B'
        } else if offset == 2 {
            'C'
        } else if offset == 3 {
            'D'
        } else if offset == 4 {
            'E'
        } else if offset == 5 {
            'F'
        } else {
            'G'
        }
    }

    /// The tone name (one of 'A' to 'G') of a note; `transpose_half_tones`
    /// shifts the note first, so that a sharp note asked for as a flat takes
    /// the letter of the natural tone above it.
    pub fn tone_name(self, transpose_half_tones: i8) -> (r: char)
        requires
            0 <= self.ordinal() + transpose_half_tones + 3 <= 127,
        ensures
            r == self.spec_tone_char(transpose_half_tones as int),
    {
        let midi_key_number = self.midi_key_number() as i8;
        let relative_to_a = (midi_key_number + transpose_half_tones + 3) % 12;
        let char_offset: i8 = if relative_to_a < 7 && relative_to_a % 2 == 0 {
            relative_to_a / 2
        } else {
            relative_to_a / 2 + 1
        };

        if char_offset == 0 {
            'A'
        } else if char_offset == 1 {
            'B'
        } else if char_offset == 2 {
            'C'
        } else if char_offset == 3 {
            'D'
        } else if char_offset == 4 {
            'E'
        } else if char_offset == 5 {
            'F'
        } else {
            'G'
        }
    }

    /// The shift `name` applies before reading the letter: one half tone up
    /// when a sharp note is to be spelled as a flat.
    pub open spec fn spec_transpose_for(self, accidental: FlatOrSharp) -> int {
        if self.spec_is_sharp() && accidental is Flat {
            1
        } else {
            0
        }
    }

    /// The accidental mark in a note's name; natural notes carry none.
    pub open spec fn spec_accidental(self, accidental: FlatOrSharp) -> Seq<char> {
        if self.spec_is_sharp() {
            if accidental is Flat {
                seq!['b']
            } else {
                seq!['#']
            }
        } else {
            Seq::<char>::empty()
        }
    }

    /// The musician-friendly name of a note: its letter, its accidental mark
    /// if any, and its octave digit.
    pub open spec fn spec_name(self, accidental: FlatOrSharp) -> Seq<char> {
        seq![self.spec_tone_char(self.spec_transpose_for(accidental))] + self.spec_accidental(
            accidental,
        ) + seq![spec_digit_char(self.ordinal() / 12 - 1)]
    }

    /// The musician-friendly name of a note, such as "C1", "F#1" or "Gb1".
    /// Notes below `C0` have no octave digit, and the highest notes no room
    /// for the letter shift; both stay out.
    pub fn name(self, accidental: FlatOrSharp) -> (r: String)
        requires
            self.ordinal() >= 12,
            self.ordinal() + self.spec_transpose_for(accidental) + 3 <= 127,
        ensures
            r@ == self.spec_name(accidental),
    {
        let (transpose_half_tones, accidental_mark): (i8, &'static str) = match (
            self.is_sharp(),
            accidental,
        ) {
            (true, FlatOrSharp::Flat) => (1i8, "b"),
            (true, FlatOrSharp::Sharp) => (0i8, "#"),
            (false, _) => (0i8, ""),
        };
        let tone = self.tone_name(transpose_half_tones);
        let octave = self.octave();
        let mut s = String::from_str(letter_str(tone));
        s.append(accidental_mark);
        s.append(digit_str(octave));
        proof {
            reveal_strlit("b");
            reveal_strlit("#");
            reveal_strlit("");
            assert(s@ =~= self.spec_name(accidental));
        }
        s
    }

    /// Position (1-61) of a note on a 61-key organ keyboard, or an error for
    /// notes the keyboard does not reach.
    pub fn organ_key_number(self) -> (r: Result<u8, Error>)
        ensures
            35 <= self.ordinal() <= 96 ==> r == Ok::<u8, Error>((self.ordinal() - 35) as u8),
            !(35 <= self.ordinal() <= 96) ==> r == Err::<u8, Error>(Error::OutOfInstrumentRange),
    {
        let midi_key_number = self.midi_key_number();
        if midi_key_number >= 35 {
            let number = midi_key_number - 35;
            if number <= 61 {
                Ok(number)
            } else {
                Err(Error::OutOfInstrumentRange)
            }
        } else {
            Err(Error::OutOfInstrumentRange)
        }
    }

    /// A new note transposed a number of half tones up or down, or an error
    /// when the result would leave the MIDI scale.
    pub fn transposed(self, half_tones: i8) -> (r: Result<Note, Error>)
        ensures
            0 <= self.ordinal() + half_tones <= 127 ==> r == Ok::<Note, Error>(
                Note::spec_from_ordinal(self.ordinal() + half_tones),
            ),
            !(0 <= self.ordinal() + half_tones <= 127) ==> r == Err::<Note, Error>(
                Error::OutOfMIDIRange,
            ),
    {
        let base = self.midi_key_number() as i16;
        let sum = base + half_tones as i16;
        if 0 <= sum && sum <= 127 {
            match Note::from_ordinal(sum as u8) {
                Ok(note) => Ok(note),
                Err(_) => Err(Error::OutOfMIDIRange),
            }
        } else {
            Err(Error::OutOfMIDIRange)
        }
    }

    /// Position (1-88) of a note on an 88-key piano keyboard, or an error for
    /// notes the keyboard does not reach.
    pub fn piano_key_number(self) -> (r: Result<u8, Error>)
        ensures
            20 <= self.ordinal() <= 108 ==> r == Ok::<u8, Error>((self.ordinal() - 20) as u8),
            !(20 <= self.ordinal() <= 108) ==> r == Err::<u8, Error>(Error::OutOfInstrumentRange),
    {
        let midi_key_number = self.midi_key_number();
        if midi_key_number >= 20 {
            let number = midi_key_number - 20;
            if number <= 88 {
                Ok(number)
            } else {
                Err(Error::OutOfInstrumentRange)
            }
        } else {
            Err(Error::OutOfInstrumentRange)
        }
    }
}

/// A one-character string for each of the seven letter names.
pub(crate) fn letter_str(c: char) -> (r: &'static str)
    requires
        c == 'A' || c == 'B' || c == 'C' || c == 'D' || c == 'E' || c == 'F' || c == 'G',
    ensures
        r@ == seq![c],
{
    proof {
        reveal_strlit("A");
        reveal_strlit("B");
        reveal_strlit("C");
        reveal_strlit("D");
        reveal_strlit("E");
        reveal_strlit("F");
        reveal_strlit("G");
    }
    if c == 'A' {
        "A"
    } else if c == 'B' {
        "B"
    } else if c == 'C' {
        "C"
    } else if c == 'D' {
        "D"
    } else if c == 'E' {
        "E"
    } else if c == 'F' {
        "F"
    } else {
        "G"
    }
}

} // verus!
