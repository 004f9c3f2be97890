//! HTTP request method matching, exact and by pattern.

use vstd::prelude::*;

use crate::config::RequestConfig;
use crate::matcher::RequestMatch;
use crate::outcome::MatchOutcome;
use crate::regex_cache::pattern_compiles;
use crate::regex_cache::pattern_matches;
use crate::regex_cache::RegexCache;
use crate::request::HttpRequest;

verus! {

/// The outcome of the exact method criterion: absent means not applicable;
/// present means case-sensitive, full-string equality with the request's
/// method.
pub open spec fn method_exact_outcome(config: RequestConfig, request: HttpRequest) -> MatchOutcome {
    match config.method {
        Option::None => MatchOutcome::NotApplicable,
        Option::Some(m) => if request.method@ == m@ {
            MatchOutcome::Satisfied
        } else {
            MatchOutcome::Unsatisfied
        },
    }
}

/// The outcome of the method pattern criterion: absent means not applicable;
/// present means the pattern must compile and find a match anywhere in the
/// request's method (unanchored search — a caller needing full-string
/// equality anchors the pattern). A pattern that does not compile fails
/// closed.
pub open spec fn method_pattern_outcome(config: RequestConfig, request: HttpRequest) -> MatchOutcome {
    match config.method_pattern {
        Option::None => MatchOutcome::NotApplicable,
        Option::Some(p) => if pattern_compiles(p@) && pattern_matches(p@, request.method@) {
            MatchOutcome::Satisfied
        } else {
            MatchOutcome::Unsatisfied
        },
    }
}

/// Exactly match an HTTP method.
#[derive(Clone, Copy, Debug)]
pub struct ExactMatch;

impl RequestMatch for ExactMatch {
    open spec fn outcome(&self, config: RequestConfig, request: HttpRequest) -> MatchOutcome {
        method_exact_outcome(config, request)
    }

    fn is_match(
        &self,
        request: &HttpRequest,
        config: &RequestConfig,
        cache: &mut RegexCache,
    ) -> (r: MatchOutcome) {
        match &config.method {
            Option::Some(m) => {
                if *m == request.method {
                    MatchOutcome::Satisfied
                } else {
                    MatchOutcome::Unsatisfied
                }
            },
            Option::None => MatchOutcome::NotApplicable,
        }
    }
}

/// Pattern match an HTTP method.
#[derive(Clone, Copy, Debug)]
pub struct PatternMatch;

impl RequestMatch for PatternMatch {
    open spec fn outcome(&self, config: RequestConfig, request: HttpRequest) -> MatchOutcome {
        method_pattern_outcome(config, request)
    }

    fn is_match(
        &self,
        request: &HttpRequest,
        config: &RequestConfig,
        cache: &mut RegexCache,
    ) -> (r: MatchOutcome) {
        match &config.method_pattern {
            Option::Some(p) => {
                match cache.is_match(p, &request.method) {
                    Ok(found) => if found {
                        MatchOutcome::Satisfied
                    } else {
                        MatchOutcome::Unsatisfied
                    },
                    Err(_) => MatchOutcome::Unsatisfied,
                }
            },
            Option::None => MatchOutcome::NotApplicable,
        }
    }
}

} // verus!
