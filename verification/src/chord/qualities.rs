use vstd::prelude::*;
use vstd::string::StringExecFns;

use crate::digits::spec_decimal;
use crate::digits::decimal_string;

verus! {

/// Different qualities of dyads. The payload is the compound interval number
/// the quality speaks of, e.g. `Major(3)` for a major third.
#[derive(Debug, Eq, PartialEq)]
pub enum DyadQuality {
    Augmented(u8),
    Diminished(u8),
    Indeterminate,
    Major(u8),
    Minor(u8),
    Perfect(u8),
}

/// Different qualities of triads.
#[derive(Debug, Eq, PartialEq)]
pub enum TriadQuality {
    Augmented,
    Diminished,
    Indeterminate,
    Major,
    Minor,
    Suspended(u8),
}

/// Different qualities of tetrads.
#[derive(Debug, Eq, PartialEq)]
pub enum TetradQuality {
    Indeterminate,
    SeventhDiminished,       // Tertian
    SeventhDominant,         // Tertian
    SeventhDominantFlatFive, // Non-tertian
    SeventhMajor,            // Tertian
    SeventhMajorFlatFive,    // Non-tertian
    SeventhMinor,            // Tertian
    SeventhMinorMajor,       // Tertian
    SeventhAugmented,        // Non-tertian | Also: SeventhAugmentedFifth, SeventhSharpFive
    SeventhDiminishedMajor,  // Non-Tertian
    SeventhHalfDiminished,   // Tertian | Also: SeventhMinorFlatFive
    SeventhAugmentedMajor,   // Tertian | Also: SeventhMajorSharpFive
}

impl DyadQuality {
    /// The text standing for a dyad quality.
    pub open spec fn spec_symbol(self) -> Seq<char> {
        match self {
            DyadQuality::Augmented(x) => seq!['a', 'u', 'g'] + spec_decimal(x as int),
            DyadQuality::Diminished(x) => seq!['s', 'u', 's'] + spec_decimal(x as int),
            DyadQuality::Indeterminate => seq!['(', 'i', 'n', 'd', ')'],
            DyadQuality::Major(x) => spec_decimal(x as int),
            DyadQuality::Minor(x) => seq!['m'] + spec_decimal(x as int),
            DyadQuality::Perfect(x) => seq!['P'] + spec_decimal(x as int),
        }
    }

    /// The text representation of a dyad quality.
    pub fn symbol(&self) -> (r: String)
        ensures
            r@ == self.spec_symbol(),
    {
        proof {
            reveal_strlit("aug");
            reveal_strlit("sus");
            reveal_strlit("(ind)");
            reveal_strlit("");
            reveal_strlit("m");
            reveal_strlit("P");
        }
        let r = match self {
            DyadQuality::Augmented(x) => String::from_str("aug").concat(
                decimal_string(*x).as_str(),
            ),
            DyadQuality::Diminished(x) => String::from_str("sus").concat(
                decimal_string(*x).as_str(),
            ),
            DyadQuality::Indeterminate => String::from_str("(ind)"),
            DyadQuality::Major(x) => String::from_str("").concat(decimal_string(*x).as_str()),
            DyadQuality::Minor(x) => String::from_str("m").concat(decimal_string(*x).as_str()),
            DyadQuality::Perfect(x) => String::from_str("P").concat(decimal_string(*x).as_str()),
        };
        proof {
            assert(r@ =~= self.spec_symbol());
        }
        r
    }
}

impl TriadQuality {
    /// The text standing for a triad quality; a plain major triad has none.
    pub open spec fn spec_symbol(self) -> Seq<char> {
        match self {
            TriadQuality::Augmented => seq!['a', 'u', 'g'],
            TriadQuality::Diminished => seq!['d', 'i', 'm'],
            TriadQuality::Indeterminate => seq!['i', 'n', 'd'],
            TriadQuality::Major => Seq::<char>::empty(),
            TriadQuality::Minor => seq!['m'],
            TriadQuality::Suspended(x) => seq!['s', 'u', 's'] + spec_decimal(x as int),
        }
    }

    /// The text representation of a triad quality.
    pub fn symbol(&self) -> (r: String)
        ensures
            r@ == self.spec_symbol(),
    {
        proof {
            reveal_strlit("aug");
            reveal_strlit("dim");
            reveal_strlit("ind");
            reveal_strlit("");
            reveal_strlit("m");
            reveal_strlit("sus");
        }
        let r = match self {
            TriadQuality::Augmented => String::from_str("aug"),
            TriadQuality::Diminished => String::from_str("dim"),
            TriadQuality::Indeterminate => String::from_str("ind"),
            TriadQuality::Major => String::from_str(""),
            TriadQuality::Minor => String::from_str("m"),
            TriadQuality::Suspended(x) => String::from_str("sus").concat(
                decimal_string(*x).as_str(),
            ),
        };
        proof {
            assert(r@ =~= self.spec_symbol());
        }
        r
    }
}

impl TetradQuality {
    /// The text standing for a tetrad quality.
    pub open spec fn spec_symbol(self) -> Seq<char> {
        match self {
            TetradQuality::Indeterminate => seq!['i', 'n', 'd'],
            TetradQuality::SeventhDiminished => seq!['d', 'i', 'm', '7'],
            TetradQuality::SeventhDominant => seq!['7'],
            TetradQuality::SeventhDominantFlatFive => seq!['7', 'b', '5'],
            TetradQuality::SeventhMajor => seq!['M', '7'],
            TetradQuality::SeventhMajorFlatFive => seq!['M', '7', 'b', '5'],
            TetradQuality::SeventhMinor => seq!['m', '7'],
            TetradQuality::SeventhMinorMajor => seq!['m', 'M', '7'],
            TetradQuality::SeventhAugmented => seq!['a', 'u', 'g', '7'],
            TetradQuality::SeventhDiminishedMajor => seq!['m', 'M', '7', 'b', '5'],
            TetradQuality::SeventhHalfDiminished => seq!['m', '7', 'b', '5'],
            TetradQuality::SeventhAugmentedMajor => seq!['M', '7', '#', '5'],
        }
    }

    /// The text representation of a tetrad quality.
    pub fn symbol(&self) -> (r: String)
        ensures
            r@ == self.spec_symbol(),
    {
        proof {
            reveal_strlit("ind");
            reveal_strlit("dim7");
            reveal_strlit("7");
            reveal_strlit("7b5");
            reveal_strlit("M7");
            reveal_strlit("M7b5");
            reveal_strlit("m7");
            reveal_strlit("mM7");
            reveal_strlit("aug7");
            reveal_strlit("mM7b5");
            reveal_strlit("m7b5");
            reveal_strlit("M7#5");
        }
        let r = match self {
            TetradQuality::Indeterminate => String::from_str("ind"),
            TetradQuality::SeventhDiminished => String::from_str("dim7"),
            TetradQuality::SeventhDominant => String::from_str("7"),
            TetradQuality::SeventhDominantFlatFive => String::from_str("7b5"),
            TetradQuality::SeventhMajor => String::from_str("M7"),
            TetradQuality::SeventhMajorFlatFive => String::from_str("M7b5"),
            TetradQuality::SeventhMinor => String::from_str("m7"),
            TetradQuality::SeventhMinorMajor => String::from_str("mM7"),
            TetradQuality::SeventhAugmented => String::from_str("aug7"),
            TetradQuality::SeventhDiminishedMajor => String::from_str("mM7b5"),
            TetradQuality::SeventhHalfDiminished => String::from_str("m7b5"),
            TetradQuality::SeventhAugmentedMajor => String::from_str("M7#5"),
        };
        proof {
            assert(r@ =~= self.spec_symbol());
        }
        r
    }
}

} // verus!
