use vstd::prelude::*;

verus! {

/// Failures that a request can end in, each rendered by the gateway with its own status.
#[derive(Debug)]
pub enum ApiError {
    /// The remote API call failed: transport error, bad status or undecodable body.
    NcbiApiError(String),
    /// A caller-supplied parameter failed a precondition.
    InvalidInput(String),
    /// The rate limiter refused admission.
    RateLimitExceeded,
    /// Any failure not otherwise classified.
    InternalError,
}

/// The HTTP status and body that an error is rendered as.
pub struct ErrorReply {
    pub status: u16,
    pub body: String,
}

pub const STATUS_BAD_REQUEST: u16 = 400;

pub const STATUS_TOO_MANY_REQUESTS: u16 = 429;

pub const STATUS_INTERNAL_SERVER_ERROR: u16 = 500;

impl ApiError {
    /// The status an error is rendered with.
    pub open spec fn status_spec(&self) -> u16 {
        match self {
            ApiError::NcbiApiError(_) => STATUS_BAD_REQUEST,
            ApiError::InvalidInput(_) => STATUS_BAD_REQUEST,
            ApiError::RateLimitExceeded => STATUS_TOO_MANY_REQUESTS,
            ApiError::InternalError => STATUS_INTERNAL_SERVER_ERROR,
        }
    }

    /// The body an error is rendered with: the detail where there is one, else a fixed text.
    pub open spec fn body_spec(&self) -> Seq<char> {
        match self {
            ApiError::NcbiApiError(msg) => msg@,
            ApiError::InvalidInput(msg) => msg@,
            ApiError::RateLimitExceeded => "Rate limit exceeded"@,
            ApiError::InternalError => "Internal server error"@,
        }
    }

    /// The human-readable description of an error.
    pub open spec fn message_spec(&self) -> Seq<char> {
        match self {
            ApiError::NcbiApiError(msg) => "NCBI API request failed: "@ + msg@,
            ApiError::InvalidInput(msg) => "Invalid input: "@ + msg@,
            ApiError::RateLimitExceeded => "Rate limit exceeded"@,
            ApiError::InternalError => "Internal server error"@,
        }
    }

    /// The status and body that the gateway answers with for this error.
    pub fn error_response(&self) -> (r: ErrorReply)
        ensures
            r.status == self.status_spec(),
            r.body@ == self.body_spec(),
    {
        match self {
            ApiError::NcbiApiError(msg) => ErrorReply { status: STATUS_BAD_REQUEST, body: msg.clone() },
            ApiError::InvalidInput(msg) => ErrorReply { status: STATUS_BAD_REQUEST, body: msg.clone() },
            ApiError::RateLimitExceeded => ErrorReply {
                status: STATUS_TOO_MANY_REQUESTS,
                body: String::from_str("Rate limit exceeded"),
            },
            ApiError::InternalError => ErrorReply {
                status: STATUS_INTERNAL_SERVER_ERROR,
                body: String::from_str("Internal server error"),
            },
        }
    }

    /// The human-readable description of this error.
    pub fn message(&self) -> (r: String)
        ensures
            r@ == self.message_spec(),
    {
        match self {
            ApiError::NcbiApiError(msg) => {
                let mut s = String::from_str("NCBI API request failed: ");
                s.append(msg.as_str());
                s
            },
            ApiError::InvalidInput(msg) => {
                let mut s = String::from_str("Invalid input: ");
                s.append(msg.as_str());
                s
            },
            ApiError::RateLimitExceeded => String::from_str("Rate limit exceeded"),
            ApiError::InternalError => String::from_str("Internal server error"),
        }
    }
}

} // verus!
