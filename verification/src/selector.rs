//! The composite evaluator, which folds every applicable criterion of one
//! mapping into a single verdict, and the selector, which picks the winning
//! mapping: lowest priority first, insertion order breaking ties.

use vstd::prelude::*;

use crate::config::Mapping;
use crate::config::RequestConfig;
use crate::matcher::RequestMatch;
use crate::matcher_headers;
use crate::matcher_method;
use crate::outcome::MatchOutcome;
use crate::regex_cache::RegexCache;
use crate::request::HttpRequest;

verus! {

/// The composite verdict of one mapping for one request: the conjunction of
/// every criterion's outcome, with `NotApplicable` counting as vacuously
/// satisfied. A mapping with no configured criteria therefore matches every
/// request — a deliberate catch-all.
pub open spec fn spec_mapping_matches(config: RequestConfig, request: HttpRequest) -> bool {
    &&& matcher_method::method_exact_outcome(config, request).spec_acceptable()
    &&& matcher_method::method_pattern_outcome(config, request).spec_acceptable()
    &&& matcher_headers::headers_exact_outcome(config, request).spec_acceptable()
    &&& matcher_headers::headers_pattern_outcome(config, request).spec_acceptable()
}

/// Run every matcher on one mapping's criteria and fold the outcomes into
/// the mapping's verdict.
pub fn evaluate(request: &HttpRequest, config: &RequestConfig, cache: &mut RegexCache) -> (r: bool)
    requires
        old(cache).inv(),
    ensures
        final(cache).inv(),
        r == spec_mapping_matches(*config, *request),
{
    let method_exact = matcher_method::ExactMatch.is_match(request, config, cache);
    let method_pattern = matcher_method::PatternMatch.is_match(request, config, cache);
    let headers_exact = matcher_headers::ExactMatch.is_match(request, config, cache);
    let headers_pattern = matcher_headers::PatternMatch.is_match(request, config, cache);
    method_exact.acceptable() && method_pattern.acceptable() && headers_exact.acceptable()
        && headers_pattern.acceptable()
}

/// Law: a mapping with no configured criteria matches every request.
pub proof fn lemma_catch_all(config: RequestConfig, request: HttpRequest)
    requires
        config.spec_is_catch_all(),
    ensures
        spec_mapping_matches(config, request),
{
}

/// Whether the mapping at `w` beats or equals the mapping at `i` under the
/// selection order: strictly lower priority, or equal priority and not later
/// in insertion order.
pub open spec fn selection_precedes(mappings: Seq<Mapping>, w: int, i: int) -> bool {
    mappings[w].priority < mappings[i].priority || (mappings[w].priority == mappings[i].priority
        && w <= i)
}

/// The winning index among the first `n` mappings: of those whose verdict is
/// true, the one with the lowest priority, earliest insertion first on ties.
pub open spec fn selected_in_prefix(
    mappings: Seq<Mapping>,
    request: HttpRequest,
    n: int,
) -> Option<int>
    decreases n,
{
    if n <= 0 {
        Option::None
    } else {
        let cur = n - 1;
        match selected_in_prefix(mappings, request, cur) {
            Option::None => if spec_mapping_matches(mappings[cur].request, request) {
                Option::Some(cur)
            } else {
                Option::None
            },
            Option::Some(best) => if spec_mapping_matches(mappings[cur].request, request)
                && mappings[cur].priority < mappings[best].priority {
                Option::Some(cur)
            } else {
                Option::Some(best)
            },
        }
    }
}

/// The winning index among all mappings, or `None` when no mapping matches.
pub open spec fn spec_selected_mapping(mappings: Seq<Mapping>, request: HttpRequest) -> Option<
    int,
> {
    selected_in_prefix(mappings, request, mappings.len() as int)
}

/// Law: the selector is faithful to the priority order. When it picks a
/// mapping, that mapping matches and precedes every matching mapping under
/// ascending priority with insertion order breaking ties; when it picks
/// none, no mapping matches. In particular two distinct mappings sharing a
/// priority are both retained and the earlier inserted one wins.
pub proof fn lemma_selected_is_best(mappings: Seq<Mapping>, request: HttpRequest, n: int)
    requires
        n <= mappings.len(),
    ensures
        match selected_in_prefix(mappings, request, n) {
            Option::None => forall|i: int|
                0 <= i < n ==> !spec_mapping_matches(#[trigger] mappings[i].request, request),
            Option::Some(w) => 0 <= w < n && spec_mapping_matches(mappings[w].request, request)
                && forall|i: int|
                0 <= i < n && spec_mapping_matches(#[trigger] mappings[i].request, request)
                    ==> selection_precedes(mappings, w, i),
        },
    decreases n,
{
    if n > 0 {
        lemma_selected_is_best(mappings, request, n - 1);
    }
}

/// Law: selection is a pure function of the mapping set and the request, so
/// repeated selections with the same inputs return the same mapping.
pub proof fn lemma_selection_idempotent(
    mappings: Seq<Mapping>,
    request: HttpRequest,
    first: Option<int>,
    second: Option<int>,
)
    requires
        first == spec_selected_mapping(mappings, request),
        second == spec_selected_mapping(mappings, request),
    ensures
        first == second,
{
}

/// Walk the mappings and return the index of the one that governs the
/// request — the matching mapping with the lowest priority, the earliest
/// inserted on ties — or `None` when no mapping matches (a valid terminal
/// outcome, not an error).
pub fn select_mapping(
    mappings: &Vec<Mapping>,
    request: &HttpRequest,
    cache: &mut RegexCache,
) -> (r: Option<usize>)
    requires
        old(cache).inv(),
    ensures
        final(cache).inv(),
        match r {
            Option::None => spec_selected_mapping(mappings@, *request) is None,
            Option::Some(i) => spec_selected_mapping(mappings@, *request) == Option::Some(i as int),
        },
        r is None ==> forall|i: int|
            0 <= i < mappings@.len() ==> !spec_mapping_matches(
                #[trigger] mappings@[i].request,
                *request,
            ),
        r matches Some(w) ==> w < mappings@.len() && spec_mapping_matches(
            mappings@[w as int].request,
            *request,
        ) && forall|i: int|
            0 <= i < mappings@.len() && spec_mapping_matches(#[trigger] mappings@[i].request, *request)
                ==> selection_precedes(mappings@, w as int, i),
{
    let mut best: Option<usize> = None;
    let mut i: usize = 0;
    while i < mappings.len()
        invariant
            cache.inv(),
            i <= mappings@.len(),
            match best {
                Option::None => selected_in_prefix(mappings@, *request, i as int) is None,
                Option::Some(b) => b < i && selected_in_prefix(mappings@, *request, i as int)
                    == Option::Some(b as int),
            },
        decreases mappings@.len() - i,
    {
        let matched = evaluate(request, &mappings[i].request, cache);
        match best {
            Option::None => {
                if matched {
                    best = Some(i);
                }
            },
            Option::Some(b) => {
                if matched && mappings[i].priority < mappings[b].priority {
                    best = Some(i);
                }
            },
        }
        i += 1;
    }
    proof {
        lemma_selected_is_best(mappings@, *request, mappings@.len() as int);
    }
    best
}

} // verus!
