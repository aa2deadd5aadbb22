use vstd::prelude::*;

verus! {

/// HTTP status of a failed or rejected request.
pub const STATUS_BAD_REQUEST: u16 = 400;

pub const STATUS_NOT_FOUND: u16 = 404;

pub const STATUS_CONFLICT: u16 = 409;

pub const STATUS_INTERNAL_SERVER_ERROR: u16 = 500;

/// The JSON body of every failure response: `{status: "Error", error_message}`.
pub struct ErrorResponse {
    pub status: String,
    pub error_message: Option<String>,
}

/// The closed set of failures a request can end in.
#[derive(Clone, Copy, Debug, PartialEq, Eq, Structural)]
pub enum AppError {
    DatabaseError,
    NotFound,
    BadRequest,
    InternalServerError,
    Conflict,
}

impl AppError {
    /// The HTTP status bound to this kind.
    pub open spec fn status_spec(self) -> u16 {
        match self {
            AppError::DatabaseError => STATUS_INTERNAL_SERVER_ERROR,
            AppError::NotFound => STATUS_NOT_FOUND,
            AppError::BadRequest => STATUS_BAD_REQUEST,
            AppError::InternalServerError => STATUS_INTERNAL_SERVER_ERROR,
            AppError::Conflict => STATUS_CONFLICT,
        }
    }

    /// The fixed human-readable message bound to this kind.
    pub open spec fn message_spec(self) -> Seq<char> {
        match self {
            AppError::DatabaseError => "Failed to action on database"@,
            AppError::NotFound => "Resource not found"@,
            AppError::BadRequest => "Bad request"@,
            AppError::InternalServerError => "Internal server error"@,
            AppError::Conflict => "Note with that title already exists"@,
        }
    }

    pub fn status_code(&self) -> (r: u16)
        ensures
            r == self.status_spec(),
    {
        match self {
            AppError::DatabaseError => STATUS_INTERNAL_SERVER_ERROR,
            AppError::NotFound => STATUS_NOT_FOUND,
            AppError::BadRequest => STATUS_BAD_REQUEST,
            AppError::InternalServerError => STATUS_INTERNAL_SERVER_ERROR,
            AppError::Conflict => STATUS_CONFLICT,
        }
    }

    pub fn message(&self) -> (r: String)
        ensures
            r@ == self.message_spec(),
    {
        match self {
            AppError::DatabaseError => "Failed to action on database".to_owned(),
            AppError::NotFound => "Resource not found".to_owned(),
            AppError::BadRequest => "Bad request".to_owned(),
            AppError::InternalServerError => "Internal server error".to_owned(),
            AppError::Conflict => "Note with that title already exists".to_owned(),
        }
    }

    /// The status and body sent back for this failure. The body's `status`
    /// is always the literal `"Error"`, whatever the kind.
    pub fn into_response(self) -> (r: (u16, ErrorResponse))
        ensures
            r.0 == self.status_spec(),
            r.1.status@ == "Error"@,
            r.1.error_message matches Some(m) && m@ == self.message_spec(),
    {
        let status = self.status_code();
        let message = self.message();
        (status, ErrorResponse { status: "Error".to_owned(), error_message: Some(message) })
    }
}

} // verus!
