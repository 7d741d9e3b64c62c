//! The closed taxonomy of classified failures and its status-code mapping.
//!
//! Every failure anywhere in the pipeline is converted into exactly one
//! `Error` before a response is built; the mapping from kind to status code
//! lives here and nowhere else.

use vstd::prelude::*;
use vstd::string::StringExecFns;

verus! {

/// A classified failure. The set of kinds is closed: any failure that does
/// not match a more specific kind is carried as `Unclassified` and reported
/// as an internal server error.
#[derive(Debug)]
pub enum ErrorKind {
    /// A referenced object is absent; the detail names the object.
    NotFound(String),
    /// The input was malformed or undecodable; the detail describes how.
    BadRequest(String),
    /// The handler or the infrastructure failed; the detail describes how.
    InternalError(String),
    /// The request used an unsupported HTTP method.
    MethodNotAllowed,
    /// A failure that matches no known kind; the detail is its display text.
    Unclassified(String),
}

/// A classified error value, immutable once constructed.
#[derive(Debug)]
pub struct Error {
    pub kind: ErrorKind,
}

/// The HTTP status code for each error kind. This mapping is total and is
/// the sole place where error status codes are decided.
pub open spec fn kind_status(k: ErrorKind) -> u16 {
    match k {
        ErrorKind::NotFound(_) => 404u16,
        ErrorKind::BadRequest(_) => 400u16,
        ErrorKind::InternalError(_) => 500u16,
        ErrorKind::MethodNotAllowed => 405u16,
        ErrorKind::Unclassified(_) => 500u16,
    }
}

/// The human-readable display text for each error kind.
pub open spec fn kind_message(k: ErrorKind) -> Seq<char> {
    match k {
        ErrorKind::NotFound(obj) => "object "@ + obj@ + " not found"@,
        ErrorKind::BadRequest(s) => "bad request "@ + s@,
        ErrorKind::InternalError(s) => "internal server error "@ + s@,
        ErrorKind::MethodNotAllowed => "method not allowed"@,
        ErrorKind::Unclassified(s) => s@,
    }
}

/// Law: the status mapping is total and closed — every kind, present or
/// future failure alike, maps to one of 400, 404, 405 or 500, so no error
/// ever leaves the adapter without a status.
pub proof fn lemma_kind_status_total(k: ErrorKind)
    ensures
        kind_status(k) == 400 || kind_status(k) == 404 || kind_status(k) == 405 || kind_status(k)
            == 500,
{
}

impl Error {
    /// Wraps a kind as an error value.
    pub fn from_kind(kind: ErrorKind) -> (e: Error)
        ensures
            e.kind == kind,
    {
        Error { kind }
    }

    /// A `NotFound` error for the named object.
    pub fn not_found(obj: String) -> (e: Error)
        ensures
            e.kind == ErrorKind::NotFound(obj),
    {
        Error { kind: ErrorKind::NotFound(obj) }
    }

    /// A `BadRequest` error with the given detail.
    pub fn bad_request(detail: String) -> (e: Error)
        ensures
            e.kind == ErrorKind::BadRequest(detail),
    {
        Error { kind: ErrorKind::BadRequest(detail) }
    }

    /// An `InternalError` with the given detail.
    pub fn internal_error(detail: String) -> (e: Error)
        ensures
            e.kind == ErrorKind::InternalError(detail),
    {
        Error { kind: ErrorKind::InternalError(detail) }
    }

    /// A `MethodNotAllowed` error.
    pub fn method_not_allowed() -> (e: Error)
        ensures
            e.kind == ErrorKind::MethodNotAllowed,
    {
        Error { kind: ErrorKind::MethodNotAllowed }
    }

    /// An `Unclassified` error with the given display text.
    pub fn unclassified(detail: String) -> (e: Error)
        ensures
            e.kind == ErrorKind::Unclassified(detail),
    {
        Error { kind: ErrorKind::Unclassified(detail) }
    }

    /// The HTTP status code this error maps to. Total: every kind yields
    /// a status.
    pub fn status_code(&self) -> (status: u16)
        ensures
            status == kind_status(self.kind),
    {
        match &self.kind {
            ErrorKind::NotFound(_) => 404,
            ErrorKind::BadRequest(_) => 400,
            ErrorKind::InternalError(_) => 500,
            ErrorKind::MethodNotAllowed => 405,
            ErrorKind::Unclassified(_) => 500,
        }
    }

    /// The human-readable display text of this error.
    pub fn message(&self) -> (msg: String)
        ensures
            msg@ == kind_message(self.kind),
    {
        match &self.kind {
            ErrorKind::NotFound(obj) => {
                let mut msg = String::from_str("object ");
                msg.append(obj.as_str());
                msg.append(" not found");
                msg
            },
            ErrorKind::BadRequest(s) => {
                let mut msg = String::from_str("bad request ");
                msg.append(s.as_str());
                msg
            },
            ErrorKind::InternalError(s) => {
                let mut msg = String::from_str("internal server error ");
                msg.append(s.as_str());
                msg
            },
            ErrorKind::MethodNotAllowed => String::from_str("method not allowed"),
            ErrorKind::Unclassified(s) => s.clone(),
        }
    }
}

} // verus!
