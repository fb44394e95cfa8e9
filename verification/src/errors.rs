//! The closed set of errors the library surfaces, with the HTTP status,
//! error code and message each one maps to.

use vstd::prelude::*;
use vstd::string::StringExecFns;

verus! {

/// Every failure a caller of the library can see.
#[derive(Debug, Clone, PartialEq, Eq)]
pub enum AppError {
    Unauthorized(String),
    BadRequest(String),
    NotFound(String),
    InsufficientCredits,
    ConcurrentGeneration,
    RateLimitExceeded(String),
    ExternalApiError(String),
    DatabaseError(String),
    InternalError(String),
}

/// The one-line description of an error, a prefix naming the class followed
/// by the detail it carries.
pub open spec fn spec_message(e: AppError) -> Seq<char> {
    match e {
        AppError::Unauthorized(m) => "Unauthorized: "@ + m@,
        AppError::BadRequest(m) => "Bad request: "@ + m@,
        AppError::NotFound(m) => "Not found: "@ + m@,
        AppError::InsufficientCredits => "Insufficient credits"@,
        AppError::ConcurrentGeneration => "Another video is currently being generated"@,
        AppError::RateLimitExceeded(m) => "Rate limit exceeded: "@ + m@,
        AppError::ExternalApiError(m) => "External API error: "@ + m@,
        AppError::DatabaseError(m) => "Database error: "@ + m@,
        AppError::InternalError(m) => "Internal error: "@ + m@,
    }
}

/// The HTTP status an error is reported with.
pub open spec fn spec_status_code(e: AppError) -> u16 {
    match e {
        AppError::Unauthorized(_) => 401,
        AppError::BadRequest(_) => 400,
        AppError::NotFound(_) => 404,
        AppError::InsufficientCredits => 402,
        AppError::ConcurrentGeneration => 409,
        AppError::RateLimitExceeded(_) => 429,
        AppError::ExternalApiError(_) => 502,
        AppError::DatabaseError(_) => 500,
        AppError::InternalError(_) => 500,
    }
}

/// The machine-readable code an error is reported under.
pub open spec fn spec_error_code(e: AppError) -> Seq<char> {
    match e {
        AppError::Unauthorized(_) => "unauthorized"@,
        AppError::BadRequest(_) => "bad_request"@,
        AppError::NotFound(_) => "not_found"@,
        AppError::InsufficientCredits => "insufficient_credits"@,
        AppError::ConcurrentGeneration => "concurrent_generation"@,
        AppError::RateLimitExceeded(_) => "rate_limit_exceeded"@,
        AppError::ExternalApiError(_) => "external_api_error"@,
        AppError::DatabaseError(_) => "database_error"@,
        AppError::InternalError(_) => "internal_error"@,
    }
}

/// The message shown to the end user: fixed wording for the two
/// balance-related errors, the carried detail for the rest.
pub open spec fn spec_client_message(e: AppError) -> Seq<char> {
    match e {
        AppError::Unauthorized(m) => m@,
        AppError::BadRequest(m) => m@,
        AppError::NotFound(m) => m@,
        AppError::InsufficientCredits => "You don't have enough credits. Purchase more to continue."@,
        AppError::ConcurrentGeneration => "You already have a video being generated. Please wait for it to complete."@,
        AppError::RateLimitExceeded(m) => m@,
        AppError::ExternalApiError(m) => m@,
        AppError::DatabaseError(m) => m@,
        AppError::InternalError(m) => m@,
    }
}

impl AppError {
    /// The one-line description of the error.
    pub fn message(&self) -> (r: String)
        ensures
            r@ == spec_message(*self),
    {
        match self {
            AppError::Unauthorized(m) => String::from_str("Unauthorized: ").concat(m.as_str()),
            AppError::BadRequest(m) => String::from_str("Bad request: ").concat(m.as_str()),
            AppError::NotFound(m) => String::from_str("Not found: ").concat(m.as_str()),
            AppError::InsufficientCredits => String::from_str("Insufficient credits"),
            AppError::ConcurrentGeneration => String::from_str(
                "Another video is currently being generated",
            ),
            AppError::RateLimitExceeded(m) => String::from_str("Rate limit exceeded: ").concat(
                m.as_str(),
            ),
            AppError::ExternalApiError(m) => String::from_str("External API error: ").concat(
                m.as_str(),
            ),
            AppError::DatabaseError(m) => String::from_str("Database error: ").concat(m.as_str()),
            AppError::InternalError(m) => String::from_str("Internal error: ").concat(m.as_str()),
        }
    }

    /// The HTTP status the error is reported with.
    pub fn status_code(&self) -> (r: u16)
        ensures
            r == spec_status_code(*self),
    {
        match self {
            AppError::Unauthorized(_) => 401,
            AppError::BadRequest(_) => 400,
            AppError::NotFound(_) => 404,
            AppError::InsufficientCredits => 402,
            AppError::ConcurrentGeneration => 409,
            AppError::RateLimitExceeded(_) => 429,
            AppError::ExternalApiError(_) => 502,
            AppError::DatabaseError(_) => 500,
            AppError::InternalError(_) => 500,
        }
    }

    /// The machine-readable code the error is reported under.
    pub fn error_code(&self) -> (r: &'static str)
        ensures
            r@ == spec_error_code(*self),
    {
        match self {
            AppError::Unauthorized(_) => "unauthorized",
            AppError::BadRequest(_) => "bad_request",
            AppError::NotFound(_) => "not_found",
            AppError::InsufficientCredits => "insufficient_credits",
            AppError::ConcurrentGeneration => "concurrent_generation",
            AppError::RateLimitExceeded(_) => "rate_limit_exceeded",
            AppError::ExternalApiError(_) => "external_api_error",
            AppError::DatabaseError(_) => "database_error",
            AppError::InternalError(_) => "internal_error",
        }
    }

    /// The message shown to the end user.
    pub fn client_message(&self) -> (r: String)
        ensures
            r@ == spec_client_message(*self),
    {
        match self {
            AppError::Unauthorized(m) => m.clone(),
            AppError::BadRequest(m) => m.clone(),
            AppError::NotFound(m) => m.clone(),
            AppError::InsufficientCredits => String::from_str(
                "You don't have enough credits. Purchase more to continue.",
            ),
            AppError::ConcurrentGeneration => String::from_str(
                "You already have a video being generated. Please wait for it to complete.",
            ),
            AppError::RateLimitExceeded(m) => m.clone(),
            AppError::ExternalApiError(m) => m.clone(),
            AppError::DatabaseError(m) => m.clone(),
            AppError::InternalError(m) => m.clone(),
        }
    }
}

/// The outcomes of a ledger operation, per the tagged-outcome convention.
#[derive(Debug, Clone, PartialEq, Eq, Structural)]
pub enum LedgerError {
    /// The account does not exist.
    AccountNotFound,
    /// A debit asked for more than the balance holds.
    InsufficientFunds,
}

/// The outcome of a failed lock acquisition.
#[derive(Debug, Clone, PartialEq, Eq, Structural)]
pub enum LockError {
    /// A lock row already exists for the account.
    AlreadyLocked,
}

} // verus!
