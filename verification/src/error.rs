//! The errors the API answers with: an HTTP status and a JSON `{ "error": code }`.

use vstd::prelude::*;

verus! {

/// The JSON body of every refused request.
#[derive(Clone, Debug, PartialEq, Eq)]
pub struct AuthError {
    pub error: String,
}

/// Why a request was refused.
#[derive(Clone, Debug, PartialEq, Eq)]
pub enum ApiError {
    /// No bearer token, or one that does not decode (401).
    InvalidToken,
    /// A human-only route called with a non-human token (403).
    NotHuman,
    /// An agent route called by a user that is not an agent (403).
    NotAgent,
    /// An engineer-only tool called by an agent of another role (403).
    NotEngineer,
    /// Deploy asked for a ticket that is not `pending_review` (409).
    NotReady,
    /// A permission request that was already approved or denied (409).
    AlreadyDecided,
    /// No such ticket or permission request (404).
    NotFound,
    /// A comment whose text is empty or white space (400).
    EmptyText,
    /// A status that humans may not set (400).
    InvalidStatus,
    /// A malformed OAuth request (400).
    InvalidRequest,
    /// An OAuth grant type other than the two supported (400).
    UnsupportedGrantType,
    /// An unknown, expired, reused or mismatched grant (401).
    InvalidGrant,
    /// An unknown or mismatched OAuth client (401).
    InvalidClient,
    /// A storage or configuration failure (500).
    ServerError,
    /// A tool call without the named argument (400).
    MissingArgument(String),
}

impl ApiError {
    /// The HTTP status of this error.
    pub open spec fn status(self) -> u16 {
        match self {
            ApiError::InvalidToken => 401,
            ApiError::NotHuman => 403,
            ApiError::NotAgent => 403,
            ApiError::NotEngineer => 403,
            ApiError::NotReady => 409,
            ApiError::AlreadyDecided => 409,
            ApiError::NotFound => 404,
            ApiError::EmptyText => 400,
            ApiError::InvalidStatus => 400,
            ApiError::InvalidRequest => 400,
            ApiError::UnsupportedGrantType => 400,
            ApiError::InvalidGrant => 401,
            ApiError::InvalidClient => 401,
            ApiError::ServerError => 500,
            ApiError::MissingArgument(_) => 400,
        }
    }

    /// The code carried in the JSON body of this error.
    pub open spec fn code(self) -> Seq<char> {
        match self {
            ApiError::InvalidToken => "invalid_token"@,
            ApiError::NotHuman => "not_human"@,
            ApiError::NotAgent => "not_agent"@,
            ApiError::NotEngineer => "not_engineer"@,
            ApiError::NotReady => "not_ready"@,
            ApiError::AlreadyDecided => "already_decided"@,
            ApiError::NotFound => "not_found"@,
            ApiError::EmptyText => "empty_text"@,
            ApiError::InvalidStatus => "invalid_status"@,
            ApiError::InvalidRequest => "invalid_request"@,
            ApiError::UnsupportedGrantType => "unsupported_grant_type"@,
            ApiError::InvalidGrant => "invalid_grant"@,
            ApiError::InvalidClient => "invalid_client"@,
            ApiError::ServerError => "server_error"@,
            ApiError::MissingArgument(key) => "missing "@ + key@,
        }
    }

    /// The HTTP status of this error.
    pub fn status_code(&self) -> (r: u16)
        ensures
            r == self.status(),
    {
        match self {
            ApiError::InvalidToken => 401,
            ApiError::NotHuman => 403,
            ApiError::NotAgent => 403,
            ApiError::NotEngineer => 403,
            ApiError::NotReady => 409,
            ApiError::AlreadyDecided => 409,
            ApiError::NotFound => 404,
            ApiError::EmptyText => 400,
            ApiError::InvalidStatus => 400,
            ApiError::InvalidRequest => 400,
            ApiError::UnsupportedGrantType => 400,
            ApiError::InvalidGrant => 401,
            ApiError::InvalidClient => 401,
            ApiError::ServerError => 500,
            ApiError::MissingArgument(_) => 400,
        }
    }

    /// The code carried in the JSON body of this error.
    pub fn code_string(&self) -> (r: String)
        ensures
            r@ == self.code(),
    {
        match self {
            ApiError::InvalidToken => String::from_str("invalid_token"),
            ApiError::NotHuman => String::from_str("not_human"),
            ApiError::NotAgent => String::from_str("not_agent"),
            ApiError::NotEngineer => String::from_str("not_engineer"),
            ApiError::NotReady => String::from_str("not_ready"),
            ApiError::AlreadyDecided => String::from_str("already_decided"),
            ApiError::NotFound => String::from_str("not_found"),
            ApiError::EmptyText => String::from_str("empty_text"),
            ApiError::InvalidStatus => String::from_str("invalid_status"),
            ApiError::InvalidRequest => String::from_str("invalid_request"),
            ApiError::UnsupportedGrantType => String::from_str("unsupported_grant_type"),
            ApiError::InvalidGrant => String::from_str("invalid_grant"),
            ApiError::InvalidClient => String::from_str("invalid_client"),
            ApiError::ServerError => String::from_str("server_error"),
            ApiError::MissingArgument(key) => {
                let mut s: String = String::from_str("missing ");
                s.append(key.as_str());
                s
            },
        }
    }

    /// The JSON body of this error.
    pub fn body(&self) -> (r: AuthError)
        ensures
            r.error@ == self.code(),
    {
        AuthError { error: self.code_string() }
    }
}

/// A looked-up row, or `not_found` when there is none.
pub fn found<T>(row: Option<T>) -> (r: Result<T, ApiError>)
    ensures
        match row {
            Some(x) => r == Ok::<T, ApiError>(x),
            None => r == Err::<T, ApiError>(ApiError::NotFound),
        },
{
    match row {
        Some(x) => Ok(x),
        None => Err(ApiError::NotFound),
    }
}

} // verus!
