use vstd::prelude::*;

verus! {

/// Why a passphrase cannot be generated.
#[derive(Debug, Clone, Copy, PartialEq, Eq, Structural)]
pub enum GenError {
    /// A timestamp that the seed needs has not been taken.
    MissingTimestamp,
    /// The word pool has no word past its reserved prefix.
    InsufficientWords,
    /// The word list could not be fetched.
    WordSourceUnavailable,
}

} // verus!
