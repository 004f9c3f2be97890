use deadmock::error::Error;
use deadmock::regex_cache::RegexCache;

#[test]
fn same_source_is_compiled_once() {
    let mut cache = RegexCache::new();
    assert_eq!(cache.compilations(), 0);
    assert_eq!(cache.len(), 0);

    let first = cache.compile(&"^GET$".to_string());
    assert!(first.is_ok());
    assert_eq!(cache.compilations(), 1);
    assert_eq!(cache.len(), 1);

    let second = cache.compile(&"^GET$".to_string());
    assert!(second.is_ok());
    // Memoized: no recompilation, and the same cached matcher is returned.
    assert_eq!(cache.compilations(), 1);
    assert_eq!(cache.len(), 1);
    assert_eq!(first.unwrap(), second.unwrap());
}

#[test]
fn cached_matchers_are_functionally_equivalent() {
    let mut cache = RegexCache::new();
    let i = cache.compile(&"lo wo".to_string()).unwrap();
    let j = cache.compile(&"lo wo".to_string()).unwrap();
    assert_eq!(
        cache.is_match_at(i, &"hello world".to_string()),
        cache.is_match_at(j, &"hello world".to_string())
    );
    assert!(cache.is_match_at(i, &"hello world".to_string()));
    assert!(!cache.is_match_at(i, &"goodbye".to_string()));
}

#[test]
fn distinct_sources_compile_separately() {
    let mut cache = RegexCache::new();
    cache.compile(&"a+".to_string()).unwrap();
    cache.compile(&"b+".to_string()).unwrap();
    assert_eq!(cache.compilations(), 2);
    assert_eq!(cache.len(), 2);
}

#[test]
fn invalid_pattern_errors_every_time() {
    let mut cache = RegexCache::new();

    let first = cache.compile(&"(".to_string());
    assert_eq!(first, Err(Error::Pattern));
    assert_eq!(cache.compilations(), 1);
    assert_eq!(cache.len(), 0);

    // No negative caching: the failing source is compiled (and counted) anew.
    let second = cache.compile(&"(".to_string());
    assert_eq!(second, Err(Error::Pattern));
    assert_eq!(cache.compilations(), 2);
    assert_eq!(cache.len(), 0);
}

#[test]
fn is_match_compiles_and_matches() {
    let mut cache = RegexCache::new();
    assert_eq!(cache.is_match(&"^GET$".to_string(), &"GET".to_string()), Ok(true));
    assert_eq!(cache.is_match(&"^GET$".to_string(), &"POST".to_string()), Ok(false));
    assert_eq!(cache.compilations(), 1);
    assert_eq!(cache.is_match(&"[".to_string(), &"GET".to_string()), Err(Error::Pattern));
}
