//! HTTP request headers matching, exact and by pattern.

use vstd::prelude::*;

use crate::config::Header;
use crate::config::HeaderPattern;
use crate::config::RequestConfig;
use crate::matcher::check_header_name;
use crate::matcher::check_header_value;
use crate::matcher::header_comparable;
use crate::matcher::spec_value_matches;
use crate::matcher::value_matches;
use crate::matcher::RequestMatch;
use crate::outcome::MatchOutcome;
use crate::regex_cache::RegexCache;
use crate::request::HttpRequest;

verus! {

/// Whether the request carries a header equal to `expected`, comparing both
/// name and value case-sensitively.
pub open spec fn spec_request_has_header(request: HttpRequest, expected: Header) -> bool {
    exists|i: int|
        0 <= i < request.headers@.len() && #[trigger] request.headers@[i].key@ == expected.key@
            && request.headers@[i].value@ == expected.value@
}

/// The exact headers criterion holds when every configured entry that can be
/// turned into a comparable pair is present verbatim on the request. An
/// entry that cannot is dropped from consideration, so a configuration of
/// only malformed entries holds vacuously.
pub open spec fn headers_exact_holds(config: RequestConfig, request: HttpRequest) -> bool {
    forall|k: int|
        0 <= k < config.headers@.len() ==> (header_comparable(#[trigger] config.headers@[k])
            ==> spec_request_has_header(request, config.headers@[k]))
}

/// The outcome of the exact headers criterion: an empty or absent list of
/// configured headers means not applicable.
pub open spec fn headers_exact_outcome(config: RequestConfig, request: HttpRequest) -> MatchOutcome {
    if config.headers@.len() == 0 {
        MatchOutcome::NotApplicable
    } else if headers_exact_holds(config, request) {
        MatchOutcome::Satisfied
    } else {
        MatchOutcome::Unsatisfied
    }
}

/// Whether one actual header meets a configured pattern entry: its name must
/// meet the entry's key (literal names case-insensitively) and its value the
/// entry's value (literal values case-sensitively).
pub open spec fn spec_header_matches_pattern(h: Header, entry: HeaderPattern) -> bool {
    spec_value_matches(h.key@, entry.key, true) && spec_value_matches(h.value@, entry.value, false)
}

/// How many of the request's headers meet a configured pattern entry.
pub open spec fn count_pattern_matches(headers: Seq<Header>, entry: HeaderPattern) -> nat
    decreases headers.len(),
{
    if headers.len() == 0 {
        0
    } else {
        count_pattern_matches(headers.drop_last(), entry) + if spec_header_matches_pattern(
            headers.last(),
            entry,
        ) {
            1nat
        } else {
            0nat
        }
    }
}

/// The header pattern criterion holds when every configured entry is met by
/// exactly one request header: zero is a miss, and more than one is rejected
/// as ambiguous.
pub open spec fn headers_pattern_holds(config: RequestConfig, request: HttpRequest) -> bool {
    forall|k: int|
        0 <= k < config.headers_pattern@.len() ==> count_pattern_matches(
            request.headers@,
            #[trigger] config.headers_pattern@[k],
        ) == 1
}

/// The outcome of the header pattern criterion: an empty or absent list of
/// configured entries means not applicable.
pub open spec fn headers_pattern_outcome(config: RequestConfig, request: HttpRequest) -> MatchOutcome {
    if config.headers_pattern@.len() == 0 {
        MatchOutcome::NotApplicable
    } else if headers_pattern_holds(config, request) {
        MatchOutcome::Satisfied
    } else {
        MatchOutcome::Unsatisfied
    }
}

/// Scan the request's headers for one equal to `expected`.
fn request_contains_header(request: &HttpRequest, expected: &Header) -> (r: bool)
    ensures
        r == spec_request_has_header(*request, *expected),
{
    let mut j: usize = 0;
    while j < request.headers.len()
        invariant
            j <= request.headers@.len(),
            forall|k: int|
                0 <= k < j ==> !(#[trigger] request.headers@[k].key@ == expected.key@
                    && request.headers@[k].value@ == expected.value@),
        decreases request.headers@.len() - j,
    {
        if request.headers[j].key == expected.key && request.headers[j].value == expected.value {
            assert(spec_request_has_header(*request, *expected)) by {
                assert(request.headers@[j as int].key@ == expected.key@
                    && request.headers@[j as int].value@ == expected.value@);
            }
            return true;
        }
        j += 1;
    }
    false
}

/// Exactly match all headers on an HTTP request.
#[derive(Clone, Copy, Debug)]
pub struct ExactMatch;

impl RequestMatch for ExactMatch {
    open spec fn outcome(&self, config: RequestConfig, request: HttpRequest) -> MatchOutcome {
        headers_exact_outcome(config, request)
    }

    fn is_match(
        &self,
        request: &HttpRequest,
        config: &RequestConfig,
        cache: &mut RegexCache,
    ) -> (r: MatchOutcome) {
        if config.headers.len() == 0 {
            MatchOutcome::NotApplicable
        } else {
            let mut all_ok = true;
            let mut i: usize = 0;
            while i < config.headers.len()
                invariant
                    i <= config.headers@.len(),
                    all_ok == (forall|k: int|
                        0 <= k < i ==> (header_comparable(#[trigger] config.headers@[k])
                            ==> spec_request_has_header(*request, config.headers@[k]))),
                decreases config.headers@.len() - i,
            {
                let entry = &config.headers[i];
                if check_header_name(&entry.key) && check_header_value(&entry.value) {
                    let found = request_contains_header(request, entry);
                    all_ok = all_ok && found;
                }
                i += 1;
            }
            if all_ok {
                MatchOutcome::Satisfied
            } else {
                MatchOutcome::Unsatisfied
            }
        }
    }
}

/// Count the request headers that meet one configured pattern entry.
fn count_matching_headers(
    request: &HttpRequest,
    entry: &HeaderPattern,
    cache: &mut RegexCache,
) -> (r: usize)
    requires
        old(cache).inv(),
    ensures
        final(cache).inv(),
        r == count_pattern_matches(request.headers@, *entry),
{
    let mut count: usize = 0;
    let mut j: usize = 0;
    while j < request.headers.len()
        invariant
            cache.inv(),
            j <= request.headers@.len(),
            count <= j,
            count == count_pattern_matches(request.headers@.subrange(0, j as int), *entry),
        decreases request.headers@.len() - j,
    {
        let matched = header_matches_pattern(&request.headers[j], entry, cache);
        proof {
            let next = request.headers@.subrange(0, j + 1 as int);
            assert(next.drop_last() =~= request.headers@.subrange(0, j as int));
            assert(next.last() == request.headers@[j as int]);
        }
        if matched {
            count += 1;
        }
        j += 1;
    }
    proof {
        assert(request.headers@.subrange(0, request.headers@.len() as int) =~= request.headers@);
    }
    count
}

/// Executable counterpart of [`spec_header_matches_pattern`].
pub fn header_matches_pattern(
    h: &Header,
    entry: &HeaderPattern,
    cache: &mut RegexCache,
) -> (r: bool)
    requires
        old(cache).inv(),
    ensures
        final(cache).inv(),
        r == spec_header_matches_pattern(*h, *entry),
{
    let key_ok = value_matches(&h.key, &entry.key, true, cache);
    let value_ok = value_matches(&h.value, &entry.value, false, cache);
    key_ok && value_ok
}

/// Pattern match all headers on an HTTP request.
#[derive(Clone, Copy, Debug)]
pub struct PatternMatch;

impl RequestMatch for PatternMatch {
    open spec fn outcome(&self, config: RequestConfig, request: HttpRequest) -> MatchOutcome {
        headers_pattern_outcome(config, request)
    }

    fn is_match(
        &self,
        request: &HttpRequest,
        config: &RequestConfig,
        cache: &mut RegexCache,
    ) -> (r: MatchOutcome) {
        if config.headers_pattern.len() == 0 {
            MatchOutcome::NotApplicable
        } else {
            let mut all_ok = true;
            let mut i: usize = 0;
            while i < config.headers_pattern.len()
                invariant
                    cache.inv(),
                    i <= config.headers_pattern@.len(),
                    all_ok == (forall|k: int|
                        0 <= k < i ==> count_pattern_matches(
                            request.headers@,
                            #[trigger] config.headers_pattern@[k],
                        ) == 1),
                decreases config.headers_pattern@.len() - i,
            {
                let matched = count_matching_headers(request, &config.headers_pattern[i], cache);
                all_ok = all_ok && matched == 1;
                i += 1;
            }
            if all_ok {
                MatchOutcome::Satisfied
            } else {
                MatchOutcome::Unsatisfied
            }
        }
    }
}

/// Law: a literal header present verbatim among the request's headers
/// satisfies the exact headers criterion that requires exactly that entry.
pub proof fn lemma_headers_exact_present(config: RequestConfig, request: HttpRequest)
    requires
        config.headers@.len() == 1,
        spec_request_has_header(request, config.headers@[0]),
    ensures
        headers_exact_outcome(config, request) == MatchOutcome::Satisfied,
{
}

/// Law: a request carrying no header equal to the single comparable entry
/// the configuration requires leaves the exact headers criterion
/// unsatisfied. (Were the entry malformed it would be dropped instead, and
/// the criterion would hold vacuously.)
pub proof fn lemma_headers_exact_absent(config: RequestConfig, request: HttpRequest)
    requires
        config.headers@.len() == 1,
        header_comparable(config.headers@[0]),
        !spec_request_has_header(request, config.headers@[0]),
    ensures
        headers_exact_outcome(config, request) == MatchOutcome::Unsatisfied,
{
}

} // verus!
