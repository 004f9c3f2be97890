use deadmock::config::ConfigValue;
use deadmock::config::Header;
use deadmock::config::HeaderPattern;
use deadmock::config::RequestConfig;
use deadmock::matcher::RequestMatch;
use deadmock::matcher_headers;
use deadmock::matcher_method;
use deadmock::outcome::MatchOutcome;
use deadmock::regex_cache::RegexCache;
use deadmock::request::HttpRequest;
use deadmock::selector::evaluate;

fn empty_config() -> RequestConfig {
    RequestConfig::default()
}

fn get_request() -> HttpRequest {
    HttpRequest::new("GET".to_string(), Vec::new())
}

#[test]
fn catch_all_matches_everything() {
    let mut cache = RegexCache::new();
    let config = empty_config();
    assert!(evaluate(&get_request(), &config, &mut cache));
    let odd = HttpRequest::new(
        "BREW".to_string(),
        vec![Header::new("X-Strange".to_string(), "yes".to_string())],
    );
    assert!(evaluate(&odd, &config, &mut cache));
}

#[test]
fn method_exact_is_case_sensitive_full_string() {
    let mut cache = RegexCache::new();
    let mut config = empty_config();
    config.method = Some("GET".to_string());

    let outcome = matcher_method::ExactMatch.is_match(&get_request(), &config, &mut cache);
    assert_eq!(outcome, MatchOutcome::Satisfied);

    let post = HttpRequest::new("POST".to_string(), Vec::new());
    let outcome = matcher_method::ExactMatch.is_match(&post, &config, &mut cache);
    assert_eq!(outcome, MatchOutcome::Unsatisfied);

    let lower = HttpRequest::new("get".to_string(), Vec::new());
    let outcome = matcher_method::ExactMatch.is_match(&lower, &config, &mut cache);
    assert_eq!(outcome, MatchOutcome::Unsatisfied);

    let absent = empty_config();
    let outcome = matcher_method::ExactMatch.is_match(&get_request(), &absent, &mut cache);
    assert_eq!(outcome, MatchOutcome::NotApplicable);
}

#[test]
fn method_pattern_anchored_and_unanchored() {
    let mut cache = RegexCache::new();
    let mut config = empty_config();
    config.method_pattern = Some("^GET$".to_string());

    let outcome = matcher_method::PatternMatch.is_match(&get_request(), &config, &mut cache);
    assert_eq!(outcome, MatchOutcome::Satisfied);

    let post = HttpRequest::new("POST".to_string(), Vec::new());
    let outcome = matcher_method::PatternMatch.is_match(&post, &config, &mut cache);
    assert_eq!(outcome, MatchOutcome::Unsatisfied);

    // Unanchored patterns use substring search semantics.
    config.method_pattern = Some("ET".to_string());
    let outcome = matcher_method::PatternMatch.is_match(&get_request(), &config, &mut cache);
    assert_eq!(outcome, MatchOutcome::Satisfied);
}

#[test]
fn method_pattern_fails_closed_on_bad_pattern() {
    let mut cache = RegexCache::new();
    let mut config = empty_config();
    config.method_pattern = Some("(".to_string());
    let outcome = matcher_method::PatternMatch.is_match(&get_request(), &config, &mut cache);
    assert_eq!(outcome, MatchOutcome::Unsatisfied);
}

#[test]
fn headers_exact_present_and_absent() {
    let mut cache = RegexCache::new();
    let mut config = empty_config();
    config.headers = vec![Header::new("Content-Type".to_string(), "application/json".to_string())];

    let with_header = HttpRequest::new(
        "GET".to_string(),
        vec![
            Header::new("Accept".to_string(), "*/*".to_string()),
            Header::new("Content-Type".to_string(), "application/json".to_string()),
        ],
    );
    let outcome = matcher_headers::ExactMatch.is_match(&with_header, &config, &mut cache);
    assert_eq!(outcome, MatchOutcome::Satisfied);

    let without_header = HttpRequest::new("GET".to_string(), Vec::new());
    let outcome = matcher_headers::ExactMatch.is_match(&without_header, &config, &mut cache);
    assert_eq!(outcome, MatchOutcome::Unsatisfied);

    let wrong_value = HttpRequest::new(
        "GET".to_string(),
        vec![Header::new("Content-Type".to_string(), "text/html".to_string())],
    );
    let outcome = matcher_headers::ExactMatch.is_match(&wrong_value, &config, &mut cache);
    assert_eq!(outcome, MatchOutcome::Unsatisfied);

    let outcome = matcher_headers::ExactMatch.is_match(&with_header, &empty_config(), &mut cache);
    assert_eq!(outcome, MatchOutcome::NotApplicable);
}

#[test]
fn headers_exact_is_case_sensitive_on_values() {
    let mut cache = RegexCache::new();
    let mut config = empty_config();
    config.headers = vec![Header::new("Content-Type".to_string(), "Application/JSON".to_string())];
    let request = HttpRequest::new(
        "GET".to_string(),
        vec![Header::new("Content-Type".to_string(), "application/json".to_string())],
    );
    let outcome = matcher_headers::ExactMatch.is_match(&request, &config, &mut cache);
    assert_eq!(outcome, MatchOutcome::Unsatisfied);
}

#[test]
fn headers_exact_drops_malformed_entries() {
    let mut cache = RegexCache::new();
    let mut config = empty_config();
    // A space makes the name unparseable, and a newline the value: both
    // entries are dropped from consideration, so the criterion holds
    // vacuously even though the request carries neither.
    config.headers = vec![
        Header::new("bad name".to_string(), "v".to_string()),
        Header::new("X-Ok".to_string(), "bad\nvalue".to_string()),
    ];
    let request = HttpRequest::new("GET".to_string(), Vec::new());
    let outcome = matcher_headers::ExactMatch.is_match(&request, &config, &mut cache);
    assert_eq!(outcome, MatchOutcome::Satisfied);

    // A well-formed entry beside them is still checked.
    config.headers.push(Header::new("X-Required".to_string(), "1".to_string()));
    let outcome = matcher_headers::ExactMatch.is_match(&request, &config, &mut cache);
    assert_eq!(outcome, MatchOutcome::Unsatisfied);
}

fn trace_pattern_config() -> RequestConfig {
    let mut config = RequestConfig::default();
    config.headers_pattern = vec![HeaderPattern {
        key: ConfigValue::Pattern("X-.*".to_string()),
        value: ConfigValue::Pattern(".*".to_string()),
    }];
    config
}

#[test]
fn headers_pattern_exactly_one_match_satisfies() {
    let mut cache = RegexCache::new();
    let config = trace_pattern_config();
    let request = HttpRequest::new(
        "GET".to_string(),
        vec![Header::new("X-Trace".to_string(), "abc".to_string())],
    );
    let outcome = matcher_headers::PatternMatch.is_match(&request, &config, &mut cache);
    assert_eq!(outcome, MatchOutcome::Satisfied);
}

#[test]
fn headers_pattern_two_matches_are_ambiguous() {
    let mut cache = RegexCache::new();
    let config = trace_pattern_config();
    let request = HttpRequest::new(
        "GET".to_string(),
        vec![
            Header::new("X-Trace".to_string(), "abc".to_string()),
            Header::new("X-Trace2".to_string(), "def".to_string()),
        ],
    );
    let outcome = matcher_headers::PatternMatch.is_match(&request, &config, &mut cache);
    assert_eq!(outcome, MatchOutcome::Unsatisfied);
}

#[test]
fn headers_pattern_zero_matches_unsatisfied() {
    let mut cache = RegexCache::new();
    let config = trace_pattern_config();
    let request = HttpRequest::new(
        "GET".to_string(),
        vec![Header::new("Y-Trace".to_string(), "abc".to_string())],
    );
    let outcome = matcher_headers::PatternMatch.is_match(&request, &config, &mut cache);
    assert_eq!(outcome, MatchOutcome::Unsatisfied);

    let absent = RequestConfig::default();
    let outcome = matcher_headers::PatternMatch.is_match(&request, &absent, &mut cache);
    assert_eq!(outcome, MatchOutcome::NotApplicable);
}

#[test]
fn headers_pattern_literal_key_is_case_insensitive() {
    let mut cache = RegexCache::new();
    let mut config = RequestConfig::default();
    config.headers_pattern = vec![HeaderPattern {
        key: ConfigValue::Literal("CONTENT-TYPE".to_string()),
        value: ConfigValue::Literal("application/json".to_string()),
    }];
    let request = HttpRequest::new(
        "GET".to_string(),
        vec![Header::new("content-type".to_string(), "application/json".to_string())],
    );
    let outcome = matcher_headers::PatternMatch.is_match(&request, &config, &mut cache);
    assert_eq!(outcome, MatchOutcome::Satisfied);
}

#[test]
fn headers_pattern_literal_value_is_case_sensitive() {
    let mut cache = RegexCache::new();
    let mut config = RequestConfig::default();
    config.headers_pattern = vec![HeaderPattern {
        key: ConfigValue::Literal("content-type".to_string()),
        value: ConfigValue::Literal("Application/JSON".to_string()),
    }];
    let request = HttpRequest::new(
        "GET".to_string(),
        vec![Header::new("content-type".to_string(), "application/json".to_string())],
    );
    let outcome = matcher_headers::PatternMatch.is_match(&request, &config, &mut cache);
    assert_eq!(outcome, MatchOutcome::Unsatisfied);
}

#[test]
fn headers_pattern_bad_pattern_fails_closed() {
    let mut cache = RegexCache::new();
    let mut config = RequestConfig::default();
    config.headers_pattern = vec![HeaderPattern {
        key: ConfigValue::Pattern("[".to_string()),
        value: ConfigValue::Literal("x".to_string()),
    }];
    let request = HttpRequest::new(
        "GET".to_string(),
        vec![Header::new("anything".to_string(), "x".to_string())],
    );
    let outcome = matcher_headers::PatternMatch.is_match(&request, &config, &mut cache);
    assert_eq!(outcome, MatchOutcome::Unsatisfied);
}
