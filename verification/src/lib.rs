//! A rule-driven HTTP request-matching engine.
//!
//! Given an incoming request and a set of declarative mappings, the engine
//! decides which mapping, if any, governs the request: each mapping carries
//! independently optional criteria (exact or pattern, on the method and on the
//! headers), every applicable criterion must be satisfied, and among the
//! mappings whose verdict is true the one with the lowest priority wins, with
//! insertion order breaking ties.

pub mod config;
pub mod error;
pub mod outcome;
pub mod matcher;
pub mod matcher_headers;
pub mod matcher_method;
pub mod proxy;
pub mod regex_cache;
pub mod request;
pub mod selector;
