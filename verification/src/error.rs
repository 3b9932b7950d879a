use vstd::prelude::*;

verus! {

/// The ways an operation on a note can fail.
#[derive(Copy, Clone, Debug, Eq, PartialEq, Structural)]
pub enum Error {
    /// The note does not exist on the instrument's keyboard.
    OutOfInstrumentRange,
    /// The note or transposition falls off the MIDI scale.
    OutOfMIDIRange,
}

} // verus!
