//! The request pipeline: method check, body acquisition, decode, handler
//! invocation, encode, and response construction.
//!
//! `JsonServer` wraps one handler and turns a wire-level request into a
//! wire-level response. Every failure at every stage is converted into a
//! classified error before a response is built, so a client always receives
//! a JSON body with an `error` field and the status the taxonomy assigns.

use std::sync::Arc;
use vstd::prelude::*;

use crate::error::Error;
use crate::error::ErrorKind;
use crate::error::kind_message;
use crate::error::kind_status;
use crate::json::error_body;
use crate::json::encode_error_body;
use crate::response::JsonResponse;
use crate::response::build_response;

verus! {

/// The HTTP method of an inbound request. The pipeline only ever asks
/// whether the method is `Post`; any other method is turned away before
/// the body is read.
#[derive(Clone, Copy, PartialEq, Eq, Structural, Debug)]
pub enum Method {
    Options,
    Get,
    Post,
    Put,
    Delete,
    Head,
    Trace,
    Connect,
    Patch,
    /// Any method outside the standard set.
    Other,
}

/// A wire-level request as the pipeline sees it: the method, the path, and
/// the outcome of buffering the body stream. `Ok` carries the whole body as
/// one contiguous buffer; `Err` carries the transport error's text when the
/// stream could not be read to its end.
pub struct JsonRequest {
    pub method: Method,
    pub path: String,
    pub body: Result<Vec<u8>, String>,
}

/// The contract between the adapter and the wrapped handler: a typed
/// request, a typed response, a handler error, one decode function, one
/// invoke operation, and one encode function.
///
/// The decode and encode functions are pure: each implementor names its
/// decoding and encoding as spec functions and promises that the executable
/// methods compute exactly those, so the same bytes always decode to the
/// same value or the same error. `call` carries no contract: the handler is
/// an opaque unit of computation.
pub trait JsonService {
    /// The handler's typed request.
    type Req;

    /// The handler's typed response.
    type Resp;

    /// The handler's error, classified by `classify_spec`.
    type Err;

    /// What the decode function returns for each body.
    spec fn deserialize_spec(&self, body: Seq<u8>) -> Result<Self::Req, Error>;

    /// The bytes the encode function produces for a handler response.
    spec fn serialize_spec(&self, resp: Self::Resp) -> Seq<u8>;

    /// The classified error a handler error converts into.
    spec fn classify_spec(&self, err: Self::Err) -> Error;

    /// Decodes a fully buffered body into the typed request. Deterministic:
    /// the result is a function of the bytes alone. A body that cannot be
    /// decoded yields a `BadRequest` error.
    fn deserialize(&self, body: &[u8]) -> (r: Result<Self::Req, Error>)
        ensures
            r == self.deserialize_spec(body@),
            r matches Err(e) ==> e.kind is BadRequest,
    ;

    /// Encodes a handler result. Success is encoded into body bytes; a
    /// handler error is converted into its classified error and propagated.
    fn serialize(&self, resp: Result<Self::Resp, Self::Err>) -> (r: Result<Vec<u8>, Error>)
        ensures
            resp matches Ok(v) ==> r matches Ok(b) && b@ == self.serialize_spec(v),
            resp matches Err(e) ==> r matches Err(ce) && ce == self.classify_spec(e),
    ;

    /// Invokes the handler on a decoded request. Opaque: it may compute
    /// anything, and two invocations on one request may differ.
    fn call(&self, req: Self::Req) -> Result<Self::Resp, Self::Err>;
}

/// The adapter: wraps one handler and serves it over JSON. The handle is
/// shared, so concurrent requests may invoke one handler without
/// duplicating state.
pub struct JsonServer<S> {
    pub inner: Arc<S>,
}

/// The response reports the given error: its status comes from the taxonomy
/// mapping and its body is the JSON error envelope around the error's
/// display text.
pub open spec fn is_error_response(resp: JsonResponse, k: ErrorKind) -> bool {
    &&& resp.wf()
    &&& resp.status == kind_status(k)
    &&& resp.body@ == error_body(kind_message(k))
}

/// The response reports a handler success: status 200 with the encoded
/// payload as body.
pub open spec fn is_success_response(resp: JsonResponse, payload: Seq<u8>) -> bool {
    &&& resp.wf()
    &&& resp.status == 200u16
    &&& resp.body@ == payload
}

/// Law: a response reporting `MethodNotAllowed` — what `call` returns for
/// every request whose method is not POST — has status 405 and the exact
/// body `{"error":"method not allowed"}`.
pub proof fn lemma_method_not_allowed_response(resp: JsonResponse)
    requires
        is_error_response(resp, ErrorKind::MethodNotAllowed),
    ensures
        resp.status == 405,
        resp.body@ == vstd::utf8::encode_utf8("{\"error\":\"method not allowed\"}"@),
        resp.content_length == resp.body@.len(),
{
    reveal_strlit("method not allowed");
    reveal_strlit("{\"error\":\"");
    reveal_strlit("\"}");
    reveal_strlit("{\"error\":\"method not allowed\"}");
    let msg = "method not allowed"@;
    assert(vstd::utf8::is_ascii_chars(msg));
    assert(forall|i: int| 0 <= i < msg.len() ==> crate::json::is_plain_byte(msg[i] as u8));
    crate::json::lemma_error_body_plain(msg);
    assert("{\"error\":\""@ + msg + "\"}"@ =~= "{\"error\":\"method not allowed\"}"@);
}

/// Law: a response reporting a `BadRequest` error — what `call` returns
/// when the body does not decode, and the handler is never invoked — has
/// status 400, and its body is the error envelope around the decode
/// failure's description.
pub proof fn lemma_bad_request_response(resp: JsonResponse, detail: String)
    requires
        is_error_response(resp, ErrorKind::BadRequest(detail)),
    ensures
        resp.status == 400,
        resp.body@ == error_body("bad request "@ + detail@),
        resp.content_length == resp.body@.len(),
{
}

/// Law: a response reporting a `NotFound` error — what `call` returns when
/// the handler fails with an error classified as `NotFound` — has status
/// 404.
pub proof fn lemma_not_found_response(resp: JsonResponse, e: Error)
    requires
        e.kind is NotFound,
        is_error_response(resp, e.kind),
    ensures
        resp.status == 404,
{
}

/// Law: a success response carries exactly the encoded payload under
/// status 200, and its declared content length equals the body's byte
/// length.
pub proof fn lemma_success_response(resp: JsonResponse, payload: Seq<u8>)
    requires
        is_success_response(resp, payload),
    ensures
        resp.status == 200,
        resp.body@ == payload,
        resp.content_length == payload.len(),
{
}

/// Law: decoding is idempotent. A service's decode function maps equal
/// byte buffers to equal outcomes — the same typed request or the same
/// error — and `JsonService::deserialize` is bound to it, so decoding one
/// buffer twice yields the same result with no observable side effect.
pub proof fn lemma_deserialize_deterministic<S: JsonService>(s: &S, b1: Seq<u8>, b2: Seq<u8>)
    requires
        b1 == b2,
    ensures
        s.deserialize_spec(b1) == s.deserialize_spec(b2),
{
}

/// Builds the error response for a classified error: the status the
/// taxonomy assigns, and the JSON error envelope as body.
pub fn error_to_response(error: Error) -> (resp: JsonResponse)
    ensures
        is_error_response(resp, error.kind),
{
    let status = error.status_code();
    let msg = error.message();
    let body = encode_error_body(msg.as_str());
    build_response(status, body)
}

impl<S: JsonService> JsonServer<S> {
    /// Runs one request through the pipeline: method check, then decode,
    /// then handler invocation, then encode; every failure exits directly
    /// to an error response.
    ///
    /// A non-POST method is turned away with `MethodNotAllowed`. A body the
    /// transport could not read is reported as `InternalError` carrying the
    /// transport error's text. A body that does not decode is reported as
    /// the decode function's `BadRequest` error, and the handler is never
    /// invoked. Otherwise the handler runs, and the response is either the
    /// encoded payload under status 200 or the error response of the
    /// classified handler error.
    pub fn call(&self, req: JsonRequest) -> (resp: JsonResponse)
        ensures
            resp.wf(),
            resp.status == 200 || resp.status == 400 || resp.status == 404 || resp.status == 405
                || resp.status == 500,
            req.method != Method::Post ==> is_error_response(resp, ErrorKind::MethodNotAllowed),
            req.method == Method::Post ==> (req.body matches Err(t) ==> is_error_response(
                resp,
                ErrorKind::InternalError(t),
            )),
            req.method == Method::Post ==> (req.body matches Ok(b) ==> (
            self.inner.deserialize_spec(b@) matches Err(e) ==> is_error_response(resp, e.kind))),
            req.method == Method::Post ==> (req.body matches Ok(b) ==> (
            self.inner.deserialize_spec(b@) matches Ok(q) ==> (exists|v: S::Resp|
                is_success_response(resp, self.inner.serialize_spec(v))) || (exists|e: S::Err|
                is_error_response(resp, self.inner.classify_spec(e).kind)))),
    {
        if req.method == Method::Post {
            match req.body {
                Ok(bytes) => {
                    let service: &S = &*self.inner;
                    match service.deserialize(bytes.as_slice()) {
                        Ok(typed_req) => {
                            let result = service.call(typed_req);
                            let ghost handler_result = result;
                            match service.serialize(result) {
                                Ok(payload) => {
                                    let resp = build_response(200, payload);
                                    proof {
                                        let v = handler_result->Ok_0;
                                        assert(is_success_response(
                                            resp,
                                            self.inner.serialize_spec(v),
                                        ));
                                    }
                                    resp
                                },
                                Err(e) => {
                                    let resp = error_to_response(e);
                                    proof {
                                        let he = handler_result->Err_0;
                                        assert(is_error_response(
                                            resp,
                                            self.inner.classify_spec(he).kind,
                                        ));
                                    }
                                    resp
                                },
                            }
                        },
                        Err(e) => error_to_response(e),
                    }
                },
                Err(text) => error_to_response(Error { kind: ErrorKind::InternalError(text) }),
            }
        } else {
            error_to_response(Error { kind: ErrorKind::MethodNotAllowed })
        }
    }
}

} // verus!
