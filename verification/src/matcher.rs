//! The capability shared by every concrete matcher, and the helpers common
//! to literal-or-pattern value matching.

use vstd::prelude::*;

use crate::config::ConfigValue;
use crate::config::Header;
use crate::config::RequestConfig;
use crate::outcome::MatchOutcome;
use crate::regex_cache::pattern_compiles;
use crate::regex_cache::pattern_matches;
use crate::regex_cache::RegexCache;
use crate::request::HttpRequest;

verus! {

/// The lowercase form of a string. The result of `str::to_lowercase` depends
/// on the characters alone.
pub uninterp spec fn lower_of(s: Seq<char>) -> Seq<char>;

/// Relies on `str::to_lowercase`: the result depends on the characters alone.
#[verifier::external_body]
pub(crate) fn lowercase(s: &String) -> (r: String)
    ensures
        r@ == lower_of(s@),
{
    s.to_lowercase()
}

/// Whether a string is a valid HTTP header name. The result of
/// `http::header::HeaderName::from_bytes` depends on the bytes alone.
pub uninterp spec fn valid_header_name(s: Seq<char>) -> bool;

/// Relies on `http::header::HeaderName::from_bytes`: whether a name parses
/// is a function of its bytes.
#[verifier::external_body]
pub(crate) fn check_header_name(s: &String) -> (r: bool)
    ensures
        r == valid_header_name(s@),
{
    http::header::HeaderName::from_bytes(s.as_bytes()).is_ok()
}

/// Whether a string is a valid HTTP header value. The result of
/// `http::header::HeaderValue::from_str` depends on the bytes alone.
pub uninterp spec fn valid_header_value(s: Seq<char>) -> bool;

/// Relies on `http::header::HeaderValue::from_str`: whether a value parses
/// is a function of its bytes.
#[verifier::external_body]
pub(crate) fn check_header_value(s: &String) -> (r: bool)
    ensures
        r == valid_header_value(s@),
{
    http::header::HeaderValue::from_str(s.as_str()).is_ok()
}

/// Whether a configured literal header can be turned into a comparable
/// name/value pair. An entry that cannot is silently dropped from
/// consideration rather than failing the whole criterion.
pub open spec fn header_comparable(h: Header) -> bool {
    valid_header_name(h.key@) && valid_header_value(h.value@)
}

/// What it means for an actual string to meet a configured literal-or-pattern
/// value: a literal compares for equality (lowercasing both sides when the
/// comparison is case-insensitive); a pattern must compile and then match
/// with unanchored search semantics — a pattern that does not compile fails
/// closed.
pub open spec fn spec_value_matches(actual: Seq<char>, expected: ConfigValue, case_insensitive: bool) -> bool {
    match expected {
        ConfigValue::Literal(s) => if case_insensitive {
            lower_of(actual) == lower_of(s@)
        } else {
            actual == s@
        },
        ConfigValue::Pattern(p) => pattern_compiles(p@) && pattern_matches(p@, actual),
    }
}

/// Executable counterpart of [`spec_value_matches`]. Pattern compilation
/// goes through the shared cache.
pub fn value_matches(
    actual: &String,
    expected: &ConfigValue,
    case_insensitive: bool,
    cache: &mut RegexCache,
) -> (r: bool)
    requires
        old(cache).inv(),
    ensures
        final(cache).inv(),
        r == spec_value_matches(actual@, *expected, case_insensitive),
{
    match expected {
        ConfigValue::Literal(s) => {
            if case_insensitive {
                lowercase(actual) == lowercase(s)
            } else {
                *actual == *s
            }
        },
        ConfigValue::Pattern(p) => {
            match cache.is_match(p, actual) {
                Ok(found) => found,
                Err(_) => false,
            }
        },
    }
}

/// The common contract of every concrete matcher: produce the tri-state
/// outcome of one criterion, as a pure function of the configuration and the
/// request. Matchers mutate nothing but the regex cache, which only memoizes
/// newly seen pattern sources.
pub trait RequestMatch {
    /// The outcome this matcher's criterion yields for a configuration and a
    /// request.
    spec fn outcome(&self, config: RequestConfig, request: HttpRequest) -> MatchOutcome;

    /// Evaluate the criterion against a request. Returns `NotApplicable`
    /// exactly when the criterion is absent from the configuration.
    fn is_match(
        &self,
        request: &HttpRequest,
        config: &RequestConfig,
        cache: &mut RegexCache,
    ) -> (r: MatchOutcome)
        requires
            old(cache).inv(),
        ensures
            final(cache).inv(),
            r == self.outcome(*config, *request),
    ;
}

} // verus!
