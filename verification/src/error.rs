//! What can go wrong in a roll, and whether the program survives it.

use vstd::prelude::*;

verus! {

/// The ways in which a roll fails.
#[derive(Clone, Copy, Debug, PartialEq, Eq, Structural)]
pub enum RollError {
    /// The catalogue has no usable row after its header.
    NoRecord,
    /// A request could not be carried out.
    Network,
    /// The answer to the metadata request is no JSON text.
    MalformedResponse,
    /// The release has no first image with a string for its address.
    NoImage,
    /// The bytes of the image are no JPEG picture of three 8-bit channels.
    Decode,
}

/// What becomes of the program after a failure.
#[derive(Clone, Copy, Debug, PartialEq, Eq, Structural)]
pub enum Severity {
    /// The program ends.
    Fatal,
    /// Another record is picked.
    Recoverable,
}

impl RollError {
    /// Only a release without an image is survived.
    pub open spec fn spec_severity(self) -> Severity {
        if self == RollError::NoImage {
            Severity::Recoverable
        } else {
            Severity::Fatal
        }
    }

    /// Whether the program ends on this failure or picks another record.
    #[verifier::when_used_as_spec(spec_severity)]
    pub fn severity(self) -> (s: Severity)
        ensures
            s == self.spec_severity(),
    {
        match self {
            RollError::NoImage => Severity::Recoverable,
            _ => Severity::Fatal,
        }
    }

    /// What the user is told.
    pub open spec fn message_text(self) -> Seq<char> {
        match self {
            RollError::NoRecord => "No record in the catalogue!"@,
            RollError::Network => "The request failed!"@,
            RollError::MalformedResponse => "The release info is no JSON!"@,
            RollError::NoImage => "No image! Re-rolling..."@,
            RollError::Decode => "Invalid image data!"@,
        }
    }

    /// The message for the user.
    pub fn message(self) -> (text: &'static str)
        ensures
            text@ == self.message_text(),
    {
        match self {
            RollError::NoRecord => "No record in the catalogue!",
            RollError::Network => "The request failed!",
            RollError::MalformedResponse => "The release info is no JSON!",
            RollError::NoImage => "No image! Re-rolling...",
            RollError::Decode => "Invalid image data!",
        }
    }
}

} // verus!
