//! How the server's routes answer a request that fails: a kind that fixes the
//! HTTP status, and a message for the body.

use vstd::prelude::*;

verus! {

/// The kinds of failure that the routes report.
#[derive(Clone, Copy, Debug, PartialEq, Eq, Structural)]
pub enum ApiErrorKind {
    BadRequest,
    Unauthorized,
    NotFound,
    Conflict,
    InternalServerError,
}

/// The HTTP status of a kind of failure.
pub open spec fn kind_status(kind: ApiErrorKind) -> u16 {
    match kind {
        ApiErrorKind::BadRequest => 400,
        ApiErrorKind::Unauthorized => 401,
        ApiErrorKind::NotFound => 404,
        ApiErrorKind::Conflict => 409,
        ApiErrorKind::InternalServerError => 500,
    }
}

impl ApiErrorKind {
    /// The HTTP status of this kind of failure.
    pub fn status_code(self) -> (res: u16)
        ensures
            res == kind_status(self),
    {
        match self {
            ApiErrorKind::BadRequest => 400,
            ApiErrorKind::Unauthorized => 401,
            ApiErrorKind::NotFound => 404,
            ApiErrorKind::Conflict => 409,
            ApiErrorKind::InternalServerError => 500,
        }
    }
}

/// The failures of deleting a path.
#[derive(Clone, Copy, Debug, PartialEq, Eq, Structural)]
pub enum DeletePathErrorKind {
    NotFound,
    BadRequest,
}

impl DeletePathErrorKind {
    /// The HTTP status of this kind of failure.
    pub fn status_code(self) -> (res: u16)
        ensures
            self == DeletePathErrorKind::NotFound ==> res == 404,
            self == DeletePathErrorKind::BadRequest ==> res == 400,
    {
        match self {
            DeletePathErrorKind::NotFound => 404,
            DeletePathErrorKind::BadRequest => 400,
        }
    }
}

/// The message in the body of a failed request.
#[derive(Debug)]
pub enum ApiErrorMessage {
    InternalServerError,
    FileNotFound,
    InvalidStoragePath(String),
    Custom(String),
}

impl ApiErrorMessage {
    /// A message of the given text.
    pub fn from_text(text: &str) -> (res: ApiErrorMessage)
        ensures
            res matches ApiErrorMessage::Custom(t) && t@ == text@,
    {
        ApiErrorMessage::Custom(String::from_str(text))
    }
}

/// A failed request: its kind and its message.
#[derive(Debug)]
pub struct ApiError<K> {
    pub kind: K,
    pub message: ApiErrorMessage,
}

/// Whether `e` has kind `kind` and the message of the given text.
pub open spec fn is_text_error<K>(e: ApiError<K>, kind: K, text: Seq<char>) -> bool {
    &&& e.kind == kind
    &&& e.message matches ApiErrorMessage::Custom(t) && t@ == text
}

/// Whether `e` is the bare internal server error.
pub open spec fn is_internal_error(e: ApiError<ApiErrorKind>) -> bool {
    &&& e.kind == ApiErrorKind::InternalServerError
    &&& e.message is InternalServerError
}

impl<K> ApiError<K> {
    /// A failure of the given kind with the message of the given text.
    pub fn with_text(kind: K, text: &str) -> (res: ApiError<K>)
        ensures
            is_text_error(res, kind, text@),
    {
        ApiError { kind, message: ApiErrorMessage::from_text(text) }
    }
}

impl ApiError<ApiErrorKind> {
    /// The bare internal server error.
    pub fn internal() -> (res: ApiError<ApiErrorKind>)
        ensures
            is_internal_error(res),
    {
        ApiError { kind: ApiErrorKind::InternalServerError, message: ApiErrorMessage::InternalServerError }
    }
}

} // verus!
