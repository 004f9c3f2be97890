//! Configuration data for the matching engine: header criteria, per-mapping
//! request criteria, the opaque response directive, and the mapping itself.

use vstd::prelude::*;

verus! {

/// A literal header: a name/value pair of plain strings.
#[derive(Clone, Debug, PartialEq, Eq, PartialOrd, Ord, Hash)]
pub struct Header {
    /// The header name.
    pub key: String,
    /// The header value.
    pub value: String,
}

impl Header {
    /// Build a header from its name and value.
    pub fn new(key: String, value: String) -> (r: Self)
        ensures
            r.key == key,
            r.value == value,
    {
        Header { key, value }
    }
}

/// A configured value that is matched either literally or as a pattern
/// source compiled through the regex cache.
#[derive(Clone, Debug, PartialEq, Eq, PartialOrd, Ord, Hash)]
pub enum ConfigValue {
    /// Compared for string equality (case sensitivity depends on the field).
    Literal(String),
    /// Compiled as a pattern and matched with unanchored search semantics.
    Pattern(String),
}

/// A header criterion whose name and value are each independently a
/// literal or a pattern.
#[derive(Clone, Debug, PartialEq, Eq, PartialOrd, Ord, Hash)]
pub struct HeaderPattern {
    /// Matched against header names; literal names compare case-insensitively.
    pub key: ConfigValue,
    /// Matched against header values; literal values compare case-sensitively.
    pub value: ConfigValue,
}

/// The request-matching criteria of one mapping. Every field is
/// independently optional: an absent field means that criterion is not
/// checked for this mapping.
#[derive(Clone, Debug, PartialEq, Eq, PartialOrd, Ord, Hash)]
pub struct RequestConfig {
    /// Exact, case-sensitive, full-string match on the HTTP method.
    pub method: Option<String>,
    /// Pattern match on the HTTP method.
    pub method_pattern: Option<String>,
    /// Literal headers that must all be present on the request.
    pub headers: Vec<Header>,
    /// Header patterns that must each match exactly one request header.
    pub headers_pattern: Vec<HeaderPattern>,
}

impl RequestConfig {
    /// True when no criterion at all is configured: such a mapping is a
    /// deliberate catch-all and matches every request.
    pub open spec fn spec_is_catch_all(self) -> bool {
        &&& self.method is None
        &&& self.method_pattern is None
        &&& self.headers@.len() == 0
        &&& self.headers_pattern@.len() == 0
    }
}

impl Default for RequestConfig {
    /// A configuration with no criteria.
    fn default() -> (r: Self)
        ensures
            r.spec_is_catch_all(),
    {
        RequestConfig { method: None, method_pattern: None, headers: Vec::new(), headers_pattern: Vec::new() }
    }
}

/// The canned response (or proxy directive) a mapping answers with.
/// The engine treats it as opaque: no matching decision reads it.
#[derive(Clone, Debug, PartialEq, Eq, PartialOrd, Ord, Hash)]
pub struct Response {
    /// The HTTP status to answer with.
    pub status: Option<u16>,
    /// Headers to set on the response.
    pub headers: Vec<Header>,
    /// A file holding the response body.
    pub body_file_name: Option<String>,
    /// Base url to forward the request to instead of answering directly.
    pub proxy_base_url: Option<String>,
    /// Headers added to a forwarded request.
    pub additional_proxy_request_headers: Vec<Header>,
}

impl Default for Response {
    /// A response directive with nothing set.
    fn default() -> (r: Self)
        ensures
            r.status is None,
            r.headers@.len() == 0,
            r.body_file_name is None,
            r.proxy_base_url is None,
            r.additional_proxy_request_headers@.len() == 0,
    {
        Response {
            status: None,
            headers: Vec::new(),
            body_file_name: None,
            proxy_base_url: None,
            additional_proxy_request_headers: Vec::new(),
        }
    }
}

/// One routing rule: matching criteria, a response, and a priority.
/// Lower priority takes precedence; mappings sharing a priority are all
/// retained and kept in insertion order.
#[derive(Clone, Debug, PartialEq, Eq, PartialOrd, Ord, Hash)]
pub struct Mapping {
    /// Lower wins when several mappings match.
    pub priority: u8,
    /// The request-matching criteria.
    pub request: RequestConfig,
    /// The response configuration; opaque to the engine.
    pub response: Response,
}

impl Mapping {
    /// Build a mapping from its parts.
    pub fn new(priority: u8, request: RequestConfig, response: Response) -> (r: Self)
        ensures
            r.priority == priority,
            r.request == request,
            r.response == response,
    {
        Mapping { priority, request, response }
    }
}

impl Default for Mapping {
    /// A catch-all mapping at priority 0 with an empty response.
    fn default() -> (r: Self)
        ensures
            r.priority == 0,
            r.request.spec_is_catch_all(),
    {
        Mapping { priority: 0, request: Default::default(), response: Default::default() }
    }
}

} // verus!
