use vstd::prelude::*;

verus! {

/// Why a signed token was not accepted.
#[derive(Clone, Copy, Debug, PartialEq, Eq, Structural)]
pub enum TokenError {
    /// The signature does not match the server's secret.
    InvalidSignature,
    /// The text is not a token, or its claims are missing or out of range.
    Malformed,
    /// The token, or the refresh record behind it, is past its expiry.
    Expired,
}

/// The outcomes that a request of this core can be rejected with.
#[derive(Clone, Copy, Debug, PartialEq, Eq, Structural)]
pub enum AppError {
    /// Bad credentials, a missing header, or an edit of someone else's record.
    Unauthorized,
    /// A token was refused.
    Token(TokenError),
    /// A record that the request names does not exist.
    NotFound,
    /// The request lacks a field that it must carry.
    BadRequest,
    /// A library that the server relies on failed.
    Internal,
}

impl AppError {
    /// The error for a request without valid credentials.
    pub fn auth_error() -> (r: AppError)
        ensures
            r == AppError::Unauthorized,
    {
        AppError::Unauthorized
    }

    /// The HTTP status code that the error is answered with.
    pub fn status_code(&self) -> (r: u16)
        ensures
            r == match *self {
                AppError::Unauthorized | AppError::Token(_) => 401u16,
                AppError::NotFound => 404u16,
                AppError::BadRequest => 400u16,
                AppError::Internal => 500u16,
            },
    {
        match self {
            AppError::Unauthorized => 401,
            AppError::Token(_) => 401,
            AppError::NotFound => 404,
            AppError::BadRequest => 400,
            AppError::Internal => 500,
        }
    }
}

impl From<TokenError> for AppError {
    fn from(e: TokenError) -> (r: AppError) {
        AppError::Token(e)
    }
}

impl vstd::std_specs::convert::FromSpecImpl<TokenError> for AppError {
    open spec fn obeys_from_spec() -> bool {
        true
    }

    open spec fn from_spec(e: TokenError) -> AppError {
        AppError::Token(e)
    }
}

} // verus!
