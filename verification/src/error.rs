//! The ways in which loading or reading a player's data can fail.

use vstd::prelude::*;
use vstd::string::StringExecFns;

verus! {

/// Why a fetch, a decode or a lookup failed.
#[derive(Debug, Clone, PartialEq, Eq)]
pub enum ErrorKind {
    /// A timestamp that is not written in the fixed pattern. Carries the offending text.
    ParseError(String),
    /// A skill record in which a mandatory field is missing or unusable.
    MalformedSnapshot,
    /// The request did not produce a usable response. Carries the transport's own words.
    TransportError(String),
    /// A skill index outside the catalog.
    SelectionError,
    /// An account record with a game mode or a flag that is none.
    MalformedAccount,
}

impl ErrorKind {
    /// The text of the one-line diagnostic for this error.
    pub open spec fn message_spec(self) -> Seq<char> {
        match self {
            ErrorKind::ParseError(text) => "invalid timestamp: "@ + text@,
            ErrorKind::MalformedSnapshot => "malformed skill snapshot"@,
            ErrorKind::TransportError(detail) => "transport failure: "@ + detail@,
            ErrorKind::SelectionError => "skill index outside the catalog"@,
            ErrorKind::MalformedAccount => "malformed account record"@,
        }
    }

    /// A one-line diagnostic, for display next to the failed player name.
    pub fn message(&self) -> (text: String)
        ensures
            text@ == self.message_spec(),
    {
        match self {
            ErrorKind::ParseError(offending) => {
                String::from_str("invalid timestamp: ").concat(offending.as_str())
            },
            ErrorKind::MalformedSnapshot => String::from_str("malformed skill snapshot"),
            ErrorKind::TransportError(detail) => {
                String::from_str("transport failure: ").concat(detail.as_str())
            },
            ErrorKind::SelectionError => String::from_str("skill index outside the catalog"),
            ErrorKind::MalformedAccount => String::from_str("malformed account record"),
        }
    }
}

} // verus!
