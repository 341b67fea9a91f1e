//! The error taxonomy of the core: every operation returns a typed failure
//! rather than aborting the process.

use vstd::prelude::*;

verus! {

/// One error kind per failure family; each carries a human-readable
/// message.
#[derive(Clone, Debug)]
pub enum IngestError {
    /// Bad input, a non-2xx discovery response, a malformed frame or a
    /// connection failure.
    Validation(String),
    /// A local I/O failure reported by a collaborator.
    Io(String),
    /// A payload-decode failure.
    Serde(String),
}

impl IngestError {
    /// The message carried by the error, whatever its kind.
    pub fn message(&self) -> (r: &String)
        ensures
            r@ == self.message_spec(),
    {
        match self {
            IngestError::Validation(m) => m,
            IngestError::Io(m) => m,
            IngestError::Serde(m) => m,
        }
    }

    /// The message carried by the error, as a sequence of characters.
    pub open spec fn message_spec(self) -> Seq<char> {
        match self {
            IngestError::Validation(m) => m@,
            IngestError::Io(m) => m@,
            IngestError::Serde(m) => m@,
        }
    }
}

} // verus!
