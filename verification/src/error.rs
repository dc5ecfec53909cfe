//! The error taxonomy of the library: one discriminated result for every way
//! a document load can fail.

use vstd::prelude::*;

verus! {

/// An enumeration of Pyxel errors.
///
/// Every failure of a load is one of these; a failed load returns no
/// document. Each variant carries a diagnostic message (the archive member,
/// field, or underlying cause involved).
#[derive(Debug)]
pub enum PyxelError {
    /// An error occurred during an IO operation.
    Io(String),
    /// An error occurred during a zip operation: the bytes are not a valid
    /// archive, or a required member is absent.
    Zip(String),
    /// An error occurred during deserialization: malformed JSON, a missing
    /// required field, an unrecognized enumeration tag, or a value a
    /// transcoder rejects.
    Serde(String),
    /// An error occurred whilst decoding an image.
    Image(String),
}

impl PyxelError {
    /// The diagnostic message carried by this error.
    pub fn message(&self) -> (r: &String)
        ensures
            r@ == self.spec_message(),
    {
        match self {
            PyxelError::Io(m) => m,
            PyxelError::Zip(m) => m,
            PyxelError::Serde(m) => m,
            PyxelError::Image(m) => m,
        }
    }

    /// The message carried by this error, whichever variant holds it.
    pub open spec fn spec_message(self) -> Seq<char> {
        match self {
            PyxelError::Io(m) => m@,
            PyxelError::Zip(m) => m@,
            PyxelError::Serde(m) => m@,
            PyxelError::Image(m) => m@,
        }
    }
}

} // verus!
