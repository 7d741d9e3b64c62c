//! The wire-level response object and its builder.
//!
//! Every response the adapter emits — success or error — carries a status,
//! a JSON content type, an explicit content length, and a body. The builder
//! is the only way a response is made, so the content-length header always
//! equals the actual byte length of the body.

use vstd::prelude::*;

verus! {

/// A wire-level response: status, headers, body bytes.
pub struct JsonResponse {
    /// The HTTP status code.
    pub status: u16,
    /// Whether the content-type header declares JSON. The builder always
    /// sets it; the field records the header for the transport to write.
    pub content_type_json: bool,
    /// The declared content-length header value.
    pub content_length: u64,
    /// The body bytes.
    pub body: Vec<u8>,
}

impl JsonResponse {
    /// The headers are consistent with the body: the declared length equals
    /// the actual byte length, and the content type is JSON.
    pub open spec fn wf(&self) -> bool {
        &&& self.content_length == self.body@.len()
        &&& self.content_type_json
    }
}

/// Builds the wire response for the given status and body bytes.
pub fn build_response(status: u16, body: Vec<u8>) -> (resp: JsonResponse)
    ensures
        resp.wf(),
        resp.status == status,
        resp.body@ == body@,
{
    let content_length = body.len() as u64;
    JsonResponse { status, content_type_json: true, content_length, body }
}

} // verus!
