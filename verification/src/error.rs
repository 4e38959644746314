//! The ways in which a relayed request can fail, and what the caller is told.

use vstd::prelude::*;
use crate::message::STATUS_FAILURE;

verus! {

/// Why a request could not be answered.
#[derive(Clone, Copy, Debug, PartialEq, Eq, Structural)]
pub enum RelayError {
    /// The credential for the completion service is not configured.
    MissingCredential,
    /// The outbound call could not be completed.
    Transport,
    /// The completion service answered with a status outside the success range.
    Upstream,
    /// The completion service's answer could not be read as JSON.
    Decode,
}

impl RelayError {
    /// The text that the caller receives for this failure.
    pub open spec fn message_text(self) -> Seq<char> {
        match self {
            RelayError::MissingCredential => "API key not set"@,
            RelayError::Transport => "Failed to contact OpenAI"@,
            RelayError::Upstream => "OpenAI API error"@,
            RelayError::Decode => "Invalid response from OpenAI"@,
        }
    }

    /// The plain-text body sent to the caller for this failure.
    pub fn message(&self) -> (text: &'static str)
        ensures
            text@ == self.message_text(),
    {
        match self {
            RelayError::MissingCredential => "API key not set",
            RelayError::Transport => "Failed to contact OpenAI",
            RelayError::Upstream => "OpenAI API error",
            RelayError::Decode => "Invalid response from OpenAI",
        }
    }

    /// The status code sent to the caller for this failure: the same for all.
    pub fn status(&self) -> (code: u16)
        ensures
            code == STATUS_FAILURE,
    {
        STATUS_FAILURE
    }
}

} // verus!
