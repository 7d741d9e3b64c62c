//! A protocol-translation adapter that exposes a typed request/response
//! handler as a JSON-over-HTTP endpoint.
//!
//! The adapter accepts a wire-level request, gates on the HTTP method,
//! decodes the JSON body into the handler's typed request, invokes the
//! handler, and encodes the typed result (or a classified error) back into
//! a wire-level response with the appropriate status code.

mod error;
mod json;
mod response;
mod server;

pub use error::Error;
pub use error::ErrorKind;
pub use error::kind_message;
pub use error::kind_status;
pub use error::lemma_kind_status_total;
pub use json::encode_error_body;
pub use json::error_body;
pub use json::escape_byte;
pub use json::escape_bytes;
pub use json::hex_digit;
pub use json::is_plain_byte;
pub use json::lemma_escape_bytes_concat;
pub use json::lemma_encode_utf8_concat;
pub use json::lemma_error_body_plain;
pub use json::lemma_escape_bytes_plain;
pub use response::JsonResponse;
pub use response::build_response;
pub use server::JsonRequest;
pub use server::JsonServer;
pub use server::JsonService;
pub use server::Method;
pub use server::error_to_response;
pub use server::is_error_response;
pub use server::is_success_response;
pub use server::lemma_bad_request_response;
pub use server::lemma_deserialize_deterministic;
pub use server::lemma_method_not_allowed_response;
pub use server::lemma_not_found_response;
pub use server::lemma_success_response;
