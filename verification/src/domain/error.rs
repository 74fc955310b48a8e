//! The errors a request can end in, and how each is answered.
use vstd::prelude::*;

use crate::domain::text::concat;

verus! {

/// An error that ends the handling of a request.
#[derive(Debug)]
pub enum AppError {
    /// The request is malformed.
    BadRequest(String),
    /// An uploaded file has an extension that names no known format.
    UnsupportedFormat(String),
    /// A required part of the request is absent or empty.
    MissingField(&'static str),
    /// Something failed on the proxy's side or upstream.
    Internal(String),
}

pub type AppResult<T> = Result<T, AppError>;

/// An [`AppError`] with its text as a character sequence.
pub enum AppErrorView {
    BadRequest(Seq<char>),
    UnsupportedFormat(Seq<char>),
    MissingField(Seq<char>),
    Internal(Seq<char>),
}

impl View for AppError {
    type V = AppErrorView;

    open spec fn view(&self) -> AppErrorView {
        match self {
            AppError::BadRequest(s) => AppErrorView::BadRequest(s@),
            AppError::UnsupportedFormat(s) => AppErrorView::UnsupportedFormat(s@),
            AppError::MissingField(s) => AppErrorView::MissingField(s@),
            AppError::Internal(s) => AppErrorView::Internal(s@),
        }
    }
}

/// The text of an error, as shown in the `message` of the error body.
pub open spec fn error_message(e: AppError) -> Seq<char> {
    match e {
        AppError::BadRequest(s) => "invalid request: "@ + s@,
        AppError::UnsupportedFormat(s) => "unsupported audio format: "@ + s@,
        AppError::MissingField(s) => "missing field: "@ + s@,
        AppError::Internal(s) => "internal error: "@ + s@,
    }
}

/// The HTTP status an error is answered with.
pub open spec fn error_status(e: AppError) -> u16 {
    match e {
        AppError::Internal(_) => 500,
        _ => 400,
    }
}

/// The `type` field of the error body.
pub open spec fn error_kind(e: AppError) -> Seq<char> {
    match e {
        AppError::Internal(_) => "internal_error"@,
        _ => "invalid_request_error"@,
    }
}

impl AppError {
    /// The generic internal error, "Something went wrong".
    pub fn create_internal_error() -> (e: AppError)
        ensures
            e@ == AppErrorView::Internal("Something went wrong"@),
    {
        AppError::Internal(String::from_str("Something went wrong"))
    }

    /// The HTTP status code of the answer: 400 for request errors, 500 for internal ones.
    pub fn status_code(&self) -> (code: u16)
        ensures
            code == error_status(*self),
    {
        match self {
            AppError::Internal(_) => 500,
            _ => 400,
        }
    }

    /// The error type written in the answer's body.
    pub fn error_type(&self) -> (t: &'static str)
        ensures
            t@ == error_kind(*self),
    {
        match self {
            AppError::Internal(_) => "internal_error",
            _ => "invalid_request_error",
        }
    }

    /// The human-readable text of the error.
    pub fn message(&self) -> (m: String)
        ensures
            m@ == error_message(*self),
    {
        match self {
            AppError::BadRequest(s) => concat("invalid request: ", s.as_str()),
            AppError::UnsupportedFormat(s) => concat("unsupported audio format: ", s.as_str()),
            AppError::MissingField(s) => concat("missing field: ", s),
            AppError::Internal(s) => concat("internal error: ", s.as_str()),
        }
    }
}

/// An error is answered with 500 exactly when it is internal, and its body's
/// type then reads `internal_error`; every other error is a 400
/// `invalid_request_error`.
pub proof fn lemma_status_matches_kind(e: AppError)
    ensures
        error_status(e) == 500 <==> e is Internal,
        error_status(e) == 400 <==> !(e is Internal),
        error_kind(e) == "internal_error"@ <==> error_status(e) == 500,
{
    reveal_strlit("internal_error");
    reveal_strlit("invalid_request_error");
    assert("internal_error"@.len() != "invalid_request_error"@.len());
}

/// The status and type of an error depend only on its kind: its view tells
/// whether it is internal.
pub proof fn lemma_status_from_view(e: AppError)
    ensures
        error_status(e) == 500 <==> e@ is Internal,
        error_status(e) == 400 <==> !(e@ is Internal),
{
}

} // verus!
