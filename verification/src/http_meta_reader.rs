//! Parameters of the one-shot metadata probe.
//!
//! The probe itself is a HEAD request issued by the surrounding process at
//! mount time; this type only carries the request parameters it needs.

use vstd::prelude::*;

verus! {

/// Request parameters for the HEAD probe that learns the resource size.
pub struct HttpMetaReader {
    pub resource_url: String,
    pub additional_headers: Vec<String>,
}

impl HttpMetaReader {
    pub fn new(url: &str, additional_headers: Vec<String>) -> (r: HttpMetaReader)
        ensures
            r.resource_url@ == url@,
            r.additional_headers == additional_headers,
    {
        HttpMetaReader { resource_url: url.to_string(), additional_headers }
    }
}

} // verus!
