//! The ways in which listing the articles fails.

use vstd::prelude::*;

verus! {

/// Why the articles could not be listed.
#[derive(Clone, Copy, Debug, PartialEq, Eq, Structural)]
pub enum ListError {
    /// No access token is configured, so no request can be made.
    MissingAccessToken,
    /// The request could not be written as JSON.
    Serialization,
    /// The request was not answered.
    Transport,
    /// The reply is not valid UTF-8.
    Decoding,
    /// The reply is not the JSON notation of a list of articles.
    Parse,
}

impl ListError {
    /// What every failure to list the articles is reported as.
    pub open spec fn summary_spec() -> Seq<char> {
        "failed to list Pocket articles"@
    }

    /// What went wrong, in words.
    pub open spec fn cause_spec(self) -> Seq<char> {
        match self {
            ListError::MissingAccessToken => "Access token missing"@,
            ListError::Serialization => "JSON serialization failed"@,
            ListError::Transport => "Curl failed"@,
            ListError::Decoding => "Data copying failed."@,
            ListError::Parse => "JSON parsing failed"@,
        }
    }

    /// What every failure to list the articles is reported as.
    pub fn summary() -> (text: &'static str)
        ensures
            text@ == Self::summary_spec(),
    {
        "failed to list Pocket articles"
    }

    /// What went wrong, in words.
    pub fn cause(self) -> (text: &'static str)
        ensures
            text@ == self.cause_spec(),
    {
        match self {
            ListError::MissingAccessToken => "Access token missing",
            ListError::Serialization => "JSON serialization failed",
            ListError::Transport => "Curl failed",
            ListError::Decoding => "Data copying failed.",
            ListError::Parse => "JSON parsing failed",
        }
    }
}

} // verus!
