//! Why a request is refused.

use vstd::prelude::*;

verus! {

/// Why a request is refused.
#[derive(Debug)]
pub enum ApiError {
    BadRequest(String),
    Unauthorized(String),
    Forbidden(String),
    Internal(String),
}

/// The mathematical value of an [`ApiError`].
#[verifier::ext_equal]
pub enum ErrorView {
    BadRequest(Seq<char>),
    Unauthorized(Seq<char>),
    Forbidden(Seq<char>),
    Internal(Seq<char>),
}

impl View for ApiError {
    type V = ErrorView;

    open spec fn view(&self) -> ErrorView {
        match self {
            ApiError::BadRequest(m) => ErrorView::BadRequest(m@),
            ApiError::Unauthorized(m) => ErrorView::Unauthorized(m@),
            ApiError::Forbidden(m) => ErrorView::Forbidden(m@),
            ApiError::Internal(m) => ErrorView::Internal(m@),
        }
    }
}

impl ErrorView {
    /// The HTTP status that the error is answered with.
    pub open spec fn status(self) -> u16 {
        match self {
            ErrorView::BadRequest(_) => 400,
            ErrorView::Unauthorized(_) => 401,
            ErrorView::Forbidden(_) => 403,
            ErrorView::Internal(_) => 500,
        }
    }

    /// What the error says.
    pub open spec fn message(self) -> Seq<char> {
        match self {
            ErrorView::BadRequest(m) => m,
            ErrorView::Unauthorized(m) => m,
            ErrorView::Forbidden(m) => m,
            ErrorView::Internal(m) => m,
        }
    }
}

impl ApiError {
    pub fn bad_request(message: &str) -> (r: ApiError)
        ensures
            r@ == ErrorView::BadRequest(message@),
    {
        ApiError::BadRequest(message.to_owned())
    }

    pub fn unauthorized(message: &str) -> (r: ApiError)
        ensures
            r@ == ErrorView::Unauthorized(message@),
    {
        ApiError::Unauthorized(message.to_owned())
    }

    pub fn forbidden(message: &str) -> (r: ApiError)
        ensures
            r@ == ErrorView::Forbidden(message@),
    {
        ApiError::Forbidden(message.to_owned())
    }

    pub fn internal(message: &str) -> (r: ApiError)
        ensures
            r@ == ErrorView::Internal(message@),
    {
        ApiError::Internal(message.to_owned())
    }

    /// The HTTP status that the error is answered with.
    pub fn status(&self) -> (r: u16)
        ensures
            r == self@.status(),
    {
        match self {
            ApiError::BadRequest(_) => 400,
            ApiError::Unauthorized(_) => 401,
            ApiError::Forbidden(_) => 403,
            ApiError::Internal(_) => 500,
        }
    }

    /// What the error says.
    pub fn message(&self) -> (r: &str)
        ensures
            r@ == self@.message(),
    {
        match self {
            ApiError::BadRequest(m) => m.as_str(),
            ApiError::Unauthorized(m) => m.as_str(),
            ApiError::Forbidden(m) => m.as_str(),
            ApiError::Internal(m) => m.as_str(),
        }
    }
}

/// Errors are answered with the status of their kind, and say what they were given to say.
pub proof fn law_errors_are_answered_by_kind(why: Seq<char>)
    ensures
        ErrorView::BadRequest(why).status() == 400,
        ErrorView::Unauthorized(why).status() == 401,
        ErrorView::Forbidden(why).status() == 403,
        ErrorView::Internal(why).status() == 500,
        ErrorView::BadRequest(why).message() == why,
        ErrorView::Unauthorized(why).message() == why,
        ErrorView::Forbidden(why).message() == why,
        ErrorView::Internal(why).message() == why,
{
}

} // verus!
