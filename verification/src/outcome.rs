//! The three-valued result of one matcher invocation.

use vstd::prelude::*;

verus! {

/// The outcome of evaluating one matching criterion against a request.
///
/// A criterion that is absent from the configuration contributes
/// `NotApplicable`; a present criterion is either `Satisfied` or
/// `Unsatisfied`. Keeping "absent" as a first-class state makes it
/// impossible to confuse a skipped check with a failed one.
#[derive(Clone, Copy, Debug, PartialEq, Eq, Structural)]
pub enum MatchOutcome {
    /// The criterion is not configured for this mapping; it contributes
    /// nothing to the mapping's verdict.
    NotApplicable,
    /// The criterion is configured and the request meets it.
    Satisfied,
    /// The criterion is configured and the request does not meet it.
    Unsatisfied,
}

impl MatchOutcome {
    /// True unless the outcome is `Unsatisfied`: a not-applicable criterion
    /// is vacuously acceptable.
    pub open spec fn spec_acceptable(self) -> bool {
        self != MatchOutcome::Unsatisfied
    }

    /// Executable counterpart of [`Self::spec_acceptable`].
    pub fn acceptable(self) -> (r: bool)
        ensures
            r == self.spec_acceptable(),
    {
        self != MatchOutcome::Unsatisfied
    }
}

} // verus!
