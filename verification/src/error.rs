//! The error type shared by every endpoint, and the rule that turns an error
//! into an HTTP status code and a message for the response body.

use vstd::prelude::*;
use vstd::string::StringExecFns;

verus! {

/// What the database layer reported about a failed statement: the SQLSTATE
/// code when the failure came from the server itself, and the driver's
/// description of the failure.
#[derive(Debug)]
pub struct DbError {
    pub code: Option<String>,
    pub message: String,
}

/// Everything that can go wrong while serving a request.
#[derive(Debug)]
pub enum ApiError {
    Db(DbError),
    Pool(String),
    NotFound,
    WrongCredentials,
    NewPasswordMustBeDifferent,
    TokenExpired,
    MissingAuthToken,
    InvalidAuthToken,
}

impl ApiError {
    /// The HTTP status code that answers this error.
    pub open spec fn spec_status(&self) -> u16 {
        match self {
            ApiError::NotFound => 404,
            ApiError::Db(e) => match e.code {
                Some(c) => if c@ == "23505"@ {
                    409
                } else if c@ == "23503"@ {
                    400
                } else {
                    500
                },
                None => 500,
            },
            ApiError::Pool(_) => 500,
            ApiError::WrongCredentials => 401,
            ApiError::NewPasswordMustBeDifferent => 422,
            ApiError::TokenExpired => 410,
            ApiError::MissingAuthToken => 400,
            ApiError::InvalidAuthToken => 401,
        }
    }

    /// The message that goes into the response body beside the status code.
    pub open spec fn spec_message(&self) -> Seq<char> {
        match self {
            ApiError::NotFound => "Resource not found"@,
            ApiError::Db(e) => match e.code {
                Some(c) => if c@ == "23505"@ {
                    "Duplicate entry"@
                } else if c@ == "23503"@ {
                    "Foreign key constraint violation"@
                } else {
                    "Database error: "@ + e.message@
                },
                None => "Database error: "@ + e.message@,
            },
            ApiError::Pool(m) => "Connection pool error: "@ + m@,
            ApiError::WrongCredentials => "Wrong credentials"@,
            ApiError::NewPasswordMustBeDifferent => "New password must be different from the current password"@,
            ApiError::TokenExpired => "Token expired"@,
            ApiError::MissingAuthToken => "Authentication token required"@,
            ApiError::InvalidAuthToken => "Invalid authentication token"@,
        }
    }

    /// The status code and message of the response that reports this error.
    pub fn status_and_message(self) -> (r: (u16, String))
        ensures
            r.0 == self.spec_status(),
            r.1@ == self.spec_message(),
    {
        match self {
            ApiError::NotFound => (404, String::from_str("Resource not found")),
            ApiError::Db(e) => {
                match e.code {
                    Some(c) => {
                        if c == String::from_str("23505") {
                            (409, String::from_str("Duplicate entry"))
                        } else if c == String::from_str("23503") {
                            (400, String::from_str("Foreign key constraint violation"))
                        } else {
                            (500, String::from_str("Database error: ").concat(e.message.as_str()))
                        }
                    },
                    None => (500, String::from_str("Database error: ").concat(e.message.as_str())),
                }
            },
            ApiError::Pool(m) => (500, String::from_str("Connection pool error: ").concat(m.as_str())),
            ApiError::WrongCredentials => (401, String::from_str("Wrong credentials")),
            ApiError::NewPasswordMustBeDifferent => (
                422,
                String::from_str("New password must be different from the current password"),
            ),
            ApiError::TokenExpired => (410, String::from_str("Token expired")),
            ApiError::MissingAuthToken => (400, String::from_str("Authentication token required")),
            ApiError::InvalidAuthToken => (401, String::from_str("Invalid authentication token")),
        }
    }
}

} // verus!
