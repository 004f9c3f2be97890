//! Error taxonomy of the matching engine.

use vstd::prelude::*;

verus! {

/// The ways a piece of configuration can be unusable.
///
/// "No mapping matched" is deliberately not here: it is a valid terminal
/// outcome of selection, reported as `None`, never as an error.
#[derive(Clone, Copy, Debug, PartialEq, Eq, Structural)]
pub enum Error {
    /// A configured pattern source does not compile.
    Pattern,
    /// A configured literal header cannot be turned into a comparable
    /// name/value pair. Matching never raises this: such an entry is
    /// silently dropped from consideration instead, so the variant names
    /// the configuration defect for callers that validate eagerly.
    MalformedCriterion,
    /// A proxy was requested without a proxy url.
    InvalidProxyConfig,
}

impl Error {
    /// The description each error carries.
    pub open spec fn spec_message(self) -> Seq<char> {
        match self {
            Error::Pattern => "invalid pattern!"@,
            Error::MalformedCriterion => "malformed header criterion!"@,
            Error::InvalidProxyConfig => "invalid proxy configuration!"@,
        }
    }

    /// A human-readable description of the error.
    pub fn message(self) -> (r: &'static str)
        ensures
            r@ == self.spec_message(),
    {
        match self {
            Error::Pattern => "invalid pattern!",
            Error::MalformedCriterion => "malformed header criterion!",
            Error::InvalidProxyConfig => "invalid proxy configuration!",
        }
    }
}

} // verus!
