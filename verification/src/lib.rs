//! Classification of unordered collections of musical pitches into named
//! chords: quality (major, minor, seventh types, ...), harmonic root,
//! inversion, and extraneous "addition" notes that the recognized skeleton
//! does not explain.

/// Data structures and convenient methods for working with musical harmonies and chords.
pub mod chord;
/// Rendering of small numbers as decimal text.
pub mod digits;
/// Error values for note operations.
pub mod error;
/// Musical notes on the 128-step MIDI scale.
pub mod note;
