use vstd::prelude::*;

verus! {

/// The three encodings a record can be stored under.
#[derive(Clone, Copy, Debug, PartialEq, Eq, Structural)]
pub enum Format {
    /// Compact, position-dependent bytes (bincode).
    Binary,
    /// Pretty-printed, hand-editable text (RON).
    StructuredText,
    /// Standard JSON text.
    Json,
}

/// Why bytes could not be turned back into a record. I/O failures are the
/// caller's own error type and pass through unchanged.
#[derive(Clone, Copy, Debug, PartialEq, Eq, Structural)]
pub enum PersistError {
    /// The bytes do not hold a record of the expected shape in the chosen
    /// encoding.
    Decode,
}

} // verus!
