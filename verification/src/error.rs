//! The error kinds a derivation can surface.

use vstd::prelude::*;

verus! {

/// Why a seed phrase or a derivation request was rejected.
#[derive(Debug, Clone, PartialEq, Eq)]
pub enum Error {
    /// The entropy byte length is not one of the supported sizes.
    InvalidEntropy,
    /// The phrase fails the wordlist or checksum validation.
    InvalidPhrase,
    /// The assembled derivation path was rejected; carries that path.
    InvalidIndex { path: String },
}

impl Error {
    /// A short name for the error kind, for diagnostics.
    pub fn kind_name(&self) -> (r: &'static str)
        ensures
            self is InvalidEntropy ==> r@ == "invalid entropy"@,
            self is InvalidPhrase ==> r@ == "invalid phrase"@,
            self is InvalidIndex ==> r@ == "invalid index"@,
    {
        match self {
            Error::InvalidEntropy => "invalid entropy",
            Error::InvalidPhrase => "invalid phrase",
            Error::InvalidIndex { .. } => "invalid index",
        }
    }
}

} // verus!
