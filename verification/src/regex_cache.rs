//! A memoizing pattern compiler: pattern source text is compiled at most
//! once for the life of the cache; failed compilations are never memoized.

use vstd::prelude::*;

use crate::error::Error;

verus! {

/// Whether a pattern source compiles. The result of `regex::Regex::new`
/// depends on the source text alone (with the crate's default limits), so it
/// can be given a name.
pub uninterp spec fn pattern_compiles(pattern: Seq<char>) -> bool;

/// Whether a compiled pattern finds a match anywhere in a haystack
/// (unanchored search). The result of `regex::Regex::is_match` depends only
/// on the source the regex was compiled from and on the haystack.
pub uninterp spec fn pattern_matches(pattern: Seq<char>, text: Seq<char>) -> bool;

/// A pattern source together with the matcher compiled from it.
///
/// The fields are private: `compile_regex` is the only constructor, so the
/// `regex` field always holds the compilation of `source`.
pub struct CompiledPattern {
    source: String,
    regex: regex::Regex,
}

#[verifier::external_type_specification]
#[verifier::external_body]
pub struct ExRegex(regex::Regex);

/// Relies on `regex::Regex::new`: whether compilation succeeds is a function
/// of the pattern source alone.
#[verifier::external_body]
fn compile_regex(pattern: &String) -> (r: Option<CompiledPattern>)
    ensures
        r is Some <==> pattern_compiles(pattern@),
        r matches Some(cp) ==> cp.source@ == pattern@,
{
    match regex::Regex::new(pattern.as_str()) {
        Ok(re) => Some(CompiledPattern { source: pattern.clone(), regex: re }),
        Err(_) => None,
    }
}

/// Relies on `regex::Regex::is_match`: an unanchored search whose result is a
/// function of the pattern source and the haystack alone. `compile_regex` is
/// the only constructor of `CompiledPattern`, so `compiled.regex` was
/// compiled from `compiled.source`.
#[verifier::external_body]
fn regex_is_match(compiled: &CompiledPattern, text: &String) -> (r: bool)
    ensures
        r == pattern_matches(compiled.source@, text@),
{
    compiled.regex.is_match(text.as_str())
}

/// A counter increment that sticks at the maximum instead of wrapping.
pub open spec fn bumped(count: u64) -> u64 {
    if count == u64::MAX {
        u64::MAX
    } else {
        (count + 1) as u64
    }
}

/// The memoizing compiler shared by all pattern matchers.
///
/// Successful compilations are kept, keyed by the exact source string, and
/// reused for every later call with the same source; a source that fails to
/// compile is retried (and fails, and is counted) on every call.
pub struct RegexCache {
    entries: Vec<CompiledPattern>,
    compilations: u64,
}

impl RegexCache {
    /// The pattern sources held, in insertion order.
    pub closed spec fn sources(self) -> Seq<Seq<char>> {
        self.entries@.map(|i: int, p: CompiledPattern| p.source@)
    }

    /// How many times the underlying compiler has run.
    pub closed spec fn compile_count(self) -> u64 {
        self.compilations
    }

    /// Whether a source is already cached.
    pub open spec fn has_source(self, pattern: Seq<char>) -> bool {
        self.sources().contains(pattern)
    }

    /// Every cached source compiles, and no source is cached twice.
    pub closed spec fn inv(self) -> bool {
        &&& forall|i: int|
            0 <= i < self.entries@.len() ==> pattern_compiles(#[trigger] self.entries@[i].source@)
        &&& forall|i: int, j: int|
            0 <= i < j < self.entries@.len() ==> self.entries@[i].source@ != self.entries@[j].source@
    }

    /// An empty cache that has compiled nothing.
    pub fn new() -> (r: Self)
        ensures
            r.inv(),
            r.sources() == Seq::<Seq<char>>::empty(),
            r.compile_count() == 0,
    {
        let r = RegexCache { entries: Vec::new(), compilations: 0 };
        proof {
            assert(r.sources() =~= Seq::<Seq<char>>::empty());
        }
        r
    }

    /// How many times the underlying compiler has run.
    pub fn compilations(&self) -> (r: u64)
        ensures
            r == self.compile_count(),
    {
        self.compilations
    }

    /// How many distinct sources are cached.
    pub fn len(&self) -> (r: usize)
        ensures
            r == self.sources().len(),
    {
        self.entries.len()
    }

    /// The position of a cached source, if it is cached.
    fn position_of(&self, pattern: &String) -> (r: Option<usize>)
        ensures
            r matches Some(i) ==> i < self.sources().len() && self.sources()[i as int] == pattern@,
            r is None ==> !self.has_source(pattern@),
    {
        let mut j: usize = 0;
        while j < self.entries.len()
            invariant
                j <= self.entries@.len(),
                forall|k: int| 0 <= k < j ==> self.sources()[k] != pattern@,
            decreases self.entries@.len() - j,
        {
            if self.entries[j].source == *pattern {
                assert(self.sources()[j as int] == pattern@);
                return Some(j);
            }
            j += 1;
        }
        None
    }

    /// Compile a pattern source, reusing the cached matcher when the same
    /// source was compiled before. Returns the position of the compiled
    /// matcher, or `Error::Pattern` when the source does not compile.
    /// A source already cached is not recompiled; a failing source is
    /// compiled (and counted) anew on every call.
    pub fn compile(&mut self, pattern: &String) -> (r: Result<usize, Error>)
        requires
            old(self).inv(),
        ensures
            final(self).inv(),
            (r is Ok) == pattern_compiles(pattern@),
            r matches Ok(i) ==> i < final(self).sources().len() && final(self).sources()[i as int]
                == pattern@,
            r is Err ==> r == Err::<usize, Error>(Error::Pattern),
            old(self).has_source(pattern@) ==> *final(self) == *old(self),
            !old(self).has_source(pattern@) ==> final(self).compile_count() == bumped(
                old(self).compile_count(),
            ),
            pattern_compiles(pattern@) && !old(self).has_source(pattern@) ==> final(self).sources()
                == old(self).sources().push(pattern@),
            !pattern_compiles(pattern@) ==> final(self).sources() == old(self).sources(),
            final(self).compile_count() >= old(self).compile_count(),
    {
        match self.position_of(pattern) {
            Some(i) => {
                assert(pattern_compiles(pattern@)) by {
                    assert(self.entries@[i as int].source@ == pattern@);
                }
                Ok(i)
            },
            None => {
                self.compilations = if self.compilations == u64::MAX {
                    u64::MAX
                } else {
                    self.compilations + 1
                };
                match compile_regex(pattern) {
                    Some(compiled) => {
                        let ghost before = self.entries@;
                        self.entries.push(compiled);
                        proof {
                            assert(self.sources() =~= before.map(
                                |i: int, p: CompiledPattern| p.source@,
                            ).push(pattern@));
                            assert forall|a: int, b: int|
                                0 <= a < b < self.entries@.len() implies self.entries@[a].source@
                                != self.entries@[b].source@ by {
                                if b == self.entries@.len() - 1 {
                                    assert(!old(self).has_source(pattern@));
                                    assert(old(self).sources()[a] == self.entries@[a].source@);
                                    assert(old(self).sources().contains(old(self).sources()[a]));
                                }
                            }
                        }
                        Ok(self.entries.len() - 1)
                    },
                    None => Err(Error::Pattern),
                }
            },
        }
    }

    /// Match a haystack against the cached matcher at a position.
    pub fn is_match_at(&self, i: usize, text: &String) -> (r: bool)
        requires
            i < self.sources().len(),
        ensures
            r == pattern_matches(self.sources()[i as int], text@),
    {
        regex_is_match(&self.entries[i], text)
    }

    /// Compile a pattern (memoized, as in [`Self::compile`]) and match a
    /// haystack against it in one step.
    pub fn is_match(&mut self, pattern: &String, text: &String) -> (r: Result<bool, Error>)
        requires
            old(self).inv(),
        ensures
            final(self).inv(),
            (r is Ok) == pattern_compiles(pattern@),
            r matches Ok(b) ==> b == pattern_matches(pattern@, text@),
            r is Err ==> r == Err::<bool, Error>(Error::Pattern),
            old(self).has_source(pattern@) ==> *final(self) == *old(self),
            !old(self).has_source(pattern@) ==> final(self).compile_count() == bumped(
                old(self).compile_count(),
            ),
            pattern_compiles(pattern@) && !old(self).has_source(pattern@) ==> final(self).sources()
                == old(self).sources().push(pattern@),
            !pattern_compiles(pattern@) ==> final(self).sources() == old(self).sources(),
    {
        match self.compile(pattern) {
            Ok(i) => Ok(self.is_match_at(i, text)),
            Err(e) => Err(e),
        }
    }
}

/// Law: matchers compiled from equal sources are functionally equivalent.
/// Two cached entries holding the same pattern source decide every haystack
/// alike, because a match is a function of the source and the haystack.
pub proof fn lemma_cached_matchers_equivalent(
    cache: RegexCache,
    i: int,
    j: int,
    text: Seq<char>,
)
    requires
        0 <= i < cache.sources().len(),
        0 <= j < cache.sources().len(),
        cache.sources()[i] == cache.sources()[j],
    ensures
        pattern_matches(cache.sources()[i], text) == pattern_matches(cache.sources()[j], text),
{
}

} // verus!
