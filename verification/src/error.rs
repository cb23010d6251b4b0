//! The stand-alone response envelope and error type.

use vstd::prelude::*;

use crate::text::{joined, owned};

verus! {

#[verifier::external_type_specification]
#[verifier::external_body]
pub struct ExAnyhowError(anyhow::Error);

#[verifier::external_type_specification]
#[verifier::external_body]
pub struct ExIoError(std::io::Error);

/// The uniform API envelope: `code`, `msg` and an optional `data` payload.
#[derive(Debug)]
pub struct ApiResponse<T> {
    pub code: i32,
    pub msg: String,
    pub data: Option<T>,
}

impl<T> ApiResponse<T> {
    /// A success envelope: code 0, message "success", the payload present.
    pub fn success(data: T) -> (r: Self)
        ensures
            r.code == 0,
            r.msg@ == "success"@,
            r.data == Some(data),
    {
        ApiResponse { code: 0, msg: owned("success"), data: Some(data) }
    }

    /// An error envelope: the given code and message, no payload.
    pub fn error(code: i32, msg: String) -> (r: Self)
        ensures
            r.code == code,
            r.msg == msg,
            r.data is None,
    {
        ApiResponse { code, msg, data: None }
    }
}

/// The error type of this envelope.
#[derive(Debug)]
pub enum AppError {
    Internal(anyhow::Error),
    NotFound(String),
    BadRequest(String),
}

impl AppError {
    /// The numeric code carried in the envelope.
    pub open spec fn code_of(&self) -> i32 {
        match self {
            AppError::Internal(_) => 500,
            AppError::NotFound(_) => 404,
            AppError::BadRequest(_) => 400,
        }
    }

    /// The HTTP status of the response.
    pub open spec fn status_of(&self) -> u16 {
        match self {
            AppError::Internal(_) => 500,
            AppError::NotFound(_) => 404,
            AppError::BadRequest(_) => 400,
        }
    }

    /// The human-readable text of the error.
    pub open spec fn message_of(&self) -> Seq<char> {
        match self {
            AppError::Internal(_) => "Internal Server Error"@,
            AppError::NotFound(m) => "Not Found: "@ + m@,
            AppError::BadRequest(m) => "Bad Request: "@ + m@,
        }
    }

    pub fn code(&self) -> (r: i32)
        ensures
            r == self.code_of(),
    {
        match self {
            AppError::Internal(_) => 500,
            AppError::NotFound(_) => 404,
            AppError::BadRequest(_) => 400,
        }
    }

    pub fn status(&self) -> (r: u16)
        ensures
            r == self.status_of(),
    {
        match self {
            AppError::Internal(_) => 500,
            AppError::NotFound(_) => 404,
            AppError::BadRequest(_) => 400,
        }
    }

    /// The text that the error displays.
    pub fn message(&self) -> (r: String)
        ensures
            r@ == self.message_of(),
    {
        match self {
            AppError::Internal(_) => owned("Internal Server Error"),
            AppError::NotFound(m) => joined("Not Found: ", m.as_str()),
            AppError::BadRequest(m) => joined("Bad Request: ", m.as_str()),
        }
    }

    /// The status and the error envelope that answer a request failing with this error.
    pub fn to_response<T>(&self) -> (r: (u16, ApiResponse<T>))
        ensures
            r.0 == self.status_of(),
            r.1.code == self.code_of(),
            r.1.msg@ == self.message_of(),
            r.1.data is None,
    {
        (self.status(), ApiResponse::error(self.code(), self.message()))
    }

    /// An I/O failure, reported as an internal error.
    pub fn from_io_error(err: std::io::Error) -> (r: AppError)
        ensures
            r is Internal,
    {
        AppError::Internal(anyhow_from_io(err))
    }
}

/// Calls `anyhow::Error::from` on an I/O error; nothing is claimed of the
/// opaque result.
#[verifier::external_body]
fn anyhow_from_io(err: std::io::Error) -> anyhow::Error {
    anyhow::Error::from(err)
}

} // verus!
