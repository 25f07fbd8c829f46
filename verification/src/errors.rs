use vstd::prelude::*;

verus! {

/// A failure of fingerprint extraction or comparison.
#[derive(Clone, Copy, Debug, PartialEq, Eq, Structural)]
pub enum Error {
    /// The underlying storage could not be read (missing file, access denied).
    IOError,
    /// The bytes read could not be decoded as an image.
    DecodeError,
    /// Two fingerprints of unequal length were compared.
    LengthMismatch,
}

impl Error {
    /// A human-readable description of the failure.
    pub fn message(&self) -> &'static str {
        match self {
            Error::IOError => "unexpected io error in reading files",
            Error::DecodeError => "error encountered in decoding an image",
            Error::LengthMismatch => {
                "cannot compute the Hamming distance of bitstrings of different lengths"
            },
        }
    }
}

} // verus!
