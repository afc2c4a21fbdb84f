use vstd::prelude::*;

verus! {

/// Why an accentuation could not be produced.
#[derive(Debug, Clone, Copy, PartialEq, Eq, Structural)]
pub enum AccentError {
    /// No stress option names the requested grammatical case.
    CaseNotFound,
    /// The stressed letter index lies past the end of the word.
    IndexOutOfRange,
    /// The stressed letter has no accented form for the stress type.
    MissingMapping,
    /// The stress type is none of the three pitch-accent classes.
    InvalidStressType,
}

} // verus!
