//! The failures of the service and the response class of each.

use vstd::prelude::*;

use crate::text::str_eq;

verus! {

/// Response class handed back to the request boundary.
#[derive(Debug, Clone, Copy, PartialEq, Eq, Structural)]
pub enum Status {
    Success,
    NoContent,
    BadRequest,
    Unauthorized,
    Forbidden,
    NotFound,
    InternalServerError,
}

impl Status {
    /// The numeric response code of each class.
    pub open spec fn code_spec(self) -> int {
        match self {
            Status::Success => 200,
            Status::NoContent => 204,
            Status::BadRequest => 400,
            Status::Unauthorized => 401,
            Status::Forbidden => 403,
            Status::NotFound => 404,
            Status::InternalServerError => 500,
        }
    }

    /// Whether the class denies access: for want of a principal, or for
    /// want of a sufficient level.
    pub open spec fn is_denial(self) -> bool {
        self == Status::Unauthorized || self == Status::Forbidden
    }

    /// The numeric response code of the class.
    pub fn code(self) -> (c: u16)
        ensures
            c == self.code_spec(),
    {
        match self {
            Status::Success => 200,
            Status::NoContent => 204,
            Status::BadRequest => 400,
            Status::Unauthorized => 401,
            Status::Forbidden => 403,
            Status::NotFound => 404,
            Status::InternalServerError => 500,
        }
    }
}

/// What the storage layer reported: the five-character condition code of
/// the database, when the failure came from the database itself, and the
/// text of the failure.
#[derive(Debug, Clone, PartialEq, Eq)]
pub struct DbFailure {
    pub code: Option<String>,
    pub message: String,
}

/// What can go wrong while a request is served.
#[derive(Debug, Clone, PartialEq, Eq)]
pub enum OrganizatorError {
    NotFound,
    PGError(DbFailure),
    PGMError(String),
    PoolError(String),
    Internal,
    BlockingError,
    /// No principal could be established for the request.
    Unauthorized,
    /// A principal is known but its access level is too low.
    Forbidden,
    /// A required input is missing or malformed.
    BadRequest,
}

/// A response class with the text that accompanies it, if any.
#[derive(Debug, Clone, PartialEq, Eq)]
pub struct ErrorResponse {
    pub status: Status,
    pub body: Option<String>,
}

/// The condition code by which the database signals an insufficient
/// access level.
pub const FORBIDDEN_CODE: &'static str = "2F004";

/// The condition code by which the database signals an unknown or
/// unauthenticated user.
pub const UNAUTHORIZED_CODE: &'static str = "28000";

/// The condition code by which the database signals a missing record.
pub const NOT_FOUND_CODE: &'static str = "02000";

/// The response class of a storage failure: the three codes by which the
/// database classifies a refusal map to their classes, everything else,
/// a failure without a code included, is an internal failure.
pub open spec fn storage_status(code: Option<Seq<char>>) -> Status {
    match code {
        Some(c) => if c == FORBIDDEN_CODE@ {
            Status::Forbidden
        } else if c == UNAUTHORIZED_CODE@ {
            Status::Unauthorized
        } else if c == NOT_FOUND_CODE@ {
            Status::NotFound
        } else {
            Status::InternalServerError
        },
        None => Status::InternalServerError,
    }
}

impl DbFailure {
    /// The characters of the condition code, if there is one.
    pub open spec fn code_view(self) -> Option<Seq<char>> {
        match self.code {
            Some(c) => Some(c@),
            None => None,
        }
    }

    /// Classifies the failure by its condition code.
    pub fn status(&self) -> (s: Status)
        ensures
            s == storage_status(self.code_view()),
    {
        match &self.code {
            Some(c) => {
                if str_eq(c.as_str(), FORBIDDEN_CODE) {
                    Status::Forbidden
                } else if str_eq(c.as_str(), UNAUTHORIZED_CODE) {
                    Status::Unauthorized
                } else if str_eq(c.as_str(), NOT_FOUND_CODE) {
                    Status::NotFound
                } else {
                    Status::InternalServerError
                }
            },
            None => Status::InternalServerError,
        }
    }
}

impl OrganizatorError {
    /// The response class of each failure.
    pub open spec fn status_spec(self) -> Status {
        match self {
            OrganizatorError::NotFound => Status::NotFound,
            OrganizatorError::PGError(f) => storage_status(f.code_view()),
            OrganizatorError::PGMError(_) => Status::InternalServerError,
            OrganizatorError::PoolError(_) => Status::InternalServerError,
            OrganizatorError::Internal => Status::InternalServerError,
            OrganizatorError::BlockingError => Status::InternalServerError,
            OrganizatorError::Unauthorized => Status::Unauthorized,
            OrganizatorError::Forbidden => Status::Forbidden,
            OrganizatorError::BadRequest => Status::BadRequest,
        }
    }

    /// The text sent with the response: storage and pool failures carry
    /// their message, every other failure has an empty response. A
    /// response that denies access is always empty: it never says why.
    pub open spec fn body_spec(self) -> Option<Seq<char>> {
        match self {
            OrganizatorError::PGError(f) => if storage_status(f.code_view()).is_denial() {
                None
            } else {
                Some(f.message@)
            },
            OrganizatorError::PoolError(m) => Some(m@),
            _ => None,
        }
    }

    /// The response that answers a request which ended in this failure.
    pub fn error_response(&self) -> (r: ErrorResponse)
        ensures
            r.status == self.status_spec(),
            r.body_view() == self.body_spec(),
    {
        match self {
            OrganizatorError::NotFound => ErrorResponse { status: Status::NotFound, body: None },
            OrganizatorError::PoolError(m) => ErrorResponse {
                status: Status::InternalServerError,
                body: Some(m.clone()),
            },
            OrganizatorError::PGError(f) => {
                let status = f.status();
                match status {
                    Status::Unauthorized => ErrorResponse { status: status, body: None },
                    Status::Forbidden => ErrorResponse { status: status, body: None },
                    _ => ErrorResponse { status: status, body: Some(f.message.clone()) },
                }
            },
            OrganizatorError::PGMError(_) => ErrorResponse {
                status: Status::InternalServerError,
                body: None,
            },
            OrganizatorError::Internal => ErrorResponse {
                status: Status::InternalServerError,
                body: None,
            },
            OrganizatorError::BlockingError => ErrorResponse {
                status: Status::InternalServerError,
                body: None,
            },
            OrganizatorError::Unauthorized => ErrorResponse {
                status: Status::Unauthorized,
                body: None,
            },
            OrganizatorError::Forbidden => ErrorResponse { status: Status::Forbidden, body: None },
            OrganizatorError::BadRequest => ErrorResponse {
                status: Status::BadRequest,
                body: None,
            },
        }
    }
}

impl From<ring::error::Unspecified> for OrganizatorError {
    /// A failure of the cryptographic library says nothing of its cause:
    /// it is an internal failure.
    fn from(unspecified_error: ring::error::Unspecified) -> (e: Self) {
        OrganizatorError::Internal
    }
}

impl vstd::std_specs::convert::FromSpecImpl<ring::error::Unspecified> for OrganizatorError {
    open spec fn obeys_from_spec() -> bool {
        true
    }

    open spec fn from_spec(unspecified_error: ring::error::Unspecified) -> Self {
        OrganizatorError::Internal
    }
}

/// A response that denies access carries no text, whatever the failure
/// behind it.
pub proof fn lemma_denials_say_nothing(e: OrganizatorError)
    requires
        e.status_spec().is_denial(),
    ensures
        e.body_spec() is None,
{
}

impl ErrorResponse {
    /// The characters of the text, if there is one.
    pub open spec fn body_view(self) -> Option<Seq<char>> {
        match self.body {
            Some(b) => Some(b@),
            None => None,
        }
    }
}

} // verus!
