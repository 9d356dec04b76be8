//! The response envelope and the error taxonomy of the HTTP surface.

use vstd::prelude::*;

verus! {

/// The envelope every endpoint answers with.
#[derive(Debug, Clone, PartialEq, Eq)]
pub struct ApiResponse<T> {
    pub success: bool,
    pub data: Option<T>,
    pub error: Option<String>,
    pub message: Option<String>,
}

/// The characters of an optional text.
pub open spec fn text(s: Option<String>) -> Option<Seq<char>> {
    match s {
        Some(t) => Some(t@),
        None => None,
    }
}

impl<T> ApiResponse<T> {
    /// A successful envelope with the given message: it carries data and no
    /// error.
    pub open spec fn succeeded(self, message: Option<Seq<char>>) -> bool {
        &&& self.success
        &&& self.data is Some
        &&& self.error is None
        &&& text(self.message) == message
    }

    /// A successful envelope that carries `data` and the given message.
    pub open spec fn is_success(self, data: T, message: Option<Seq<char>>) -> bool {
        &&& self.succeeded(message)
        &&& self.data == Some(data)
    }

    /// A failed envelope: no data, no message, only the error text.
    pub open spec fn is_failure(self, error: Seq<char>) -> bool {
        &&& !self.success
        &&& self.data is None
        &&& text(self.error) == Some(error)
        &&& self.message is None
    }

    pub fn success(data: T) -> (r: Self)
        ensures
            r.is_success(data, None),
    {
        Self { success: true, data: Some(data), error: None, message: None }
    }

    pub fn success_with_message(data: T, message: &str) -> (r: Self)
        ensures
            r.is_success(data, Some(message@)),
    {
        Self { success: true, data: Some(data), error: None, message: Some(message.to_owned()) }
    }
}

/// What went wrong, as the client is told: each variant carries a short,
/// safe message.
#[derive(Debug, Clone, PartialEq, Eq)]
pub enum ApiError {
    NotFound(String),
    Unauthorized(String),
    InternalError(String),
    ValidationError(String),
    BadRequest(String),
}

/// An `ApiError` with its message as a sequence of characters.
pub enum ApiErrorView {
    NotFound(Seq<char>),
    Unauthorized(Seq<char>),
    InternalError(Seq<char>),
    ValidationError(Seq<char>),
    BadRequest(Seq<char>),
}

impl ApiErrorView {
    pub open spec fn message(self) -> Seq<char> {
        match self {
            ApiErrorView::NotFound(m) => m,
            ApiErrorView::Unauthorized(m) => m,
            ApiErrorView::InternalError(m) => m,
            ApiErrorView::ValidationError(m) => m,
            ApiErrorView::BadRequest(m) => m,
        }
    }

    /// The HTTP status that goes with the error.
    pub open spec fn status(self) -> u16 {
        match self {
            ApiErrorView::NotFound(_) => 404,
            ApiErrorView::Unauthorized(_) => 401,
            ApiErrorView::InternalError(_) => 500,
            ApiErrorView::ValidationError(_) => 400,
            ApiErrorView::BadRequest(_) => 400,
        }
    }
}

impl View for ApiError {
    type V = ApiErrorView;

    open spec fn view(&self) -> ApiErrorView {
        match *self {
            ApiError::NotFound(m) => ApiErrorView::NotFound(m@),
            ApiError::Unauthorized(m) => ApiErrorView::Unauthorized(m@),
            ApiError::InternalError(m) => ApiErrorView::InternalError(m@),
            ApiError::ValidationError(m) => ApiErrorView::ValidationError(m@),
            ApiError::BadRequest(m) => ApiErrorView::BadRequest(m@),
        }
    }
}

impl ApiError {
    pub fn status_code(&self) -> (code: u16)
        ensures
            code == self@.status(),
    {
        match self {
            ApiError::NotFound(_) => 404,
            ApiError::Unauthorized(_) => 401,
            ApiError::InternalError(_) => 500,
            ApiError::ValidationError(_) => 400,
            ApiError::BadRequest(_) => 400,
        }
    }

    /// The status and the envelope that the client receives: the message moves
    /// into the envelope's `error`, and nothing else of the error is shown.
    pub fn into_response(self) -> (r: (u16, ApiResponse<()>))
        ensures
            r.0 == self@.status(),
            r.1.is_failure(self@.message()),
    {
        let status = self.status_code();
        let error = match self {
            ApiError::NotFound(msg) => msg,
            ApiError::Unauthorized(msg) => msg,
            ApiError::InternalError(msg) => msg,
            ApiError::ValidationError(msg) => msg,
            ApiError::BadRequest(msg) => msg,
        };
        (status, ApiResponse { success: false, data: None, error: Some(error), message: None })
    }
}

} // verus!
