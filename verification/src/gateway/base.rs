//! Response envelope, success wrapper and error mapping used by the handlers.

use vstd::prelude::*;

use crate::text::{joined, owned};

pub mod middleware;

verus! {

/// The uniform API envelope sent to clients.
#[derive(Debug)]
pub struct ApiResponse<T> {
    pub code: i32,
    pub msg: String,
    pub data: Option<T>,
}

impl<T> ApiResponse<T> {
    /// An error envelope: the given code and message, no payload.
    pub fn error(code: i32, msg: String) -> (r: Self)
        ensures
            r.code == code,
            r.msg == msg,
            r.data is None,
    {
        ApiResponse { code, msg, data: None }
    }
}

/// A successful handler result: the payload and the envelope code.
#[derive(Debug)]
pub struct Reply<T>(pub T, pub i32);

impl<T> Reply<T> {
    /// The envelope that a successful reply is sent as.
    pub fn into_api_response(self) -> (r: ApiResponse<T>)
        ensures
            r.code == self.1,
            r.msg@ == "success"@,
            r.data == Some(self.0),
    {
        ApiResponse { code: self.1, msg: owned("success"), data: Some(self.0) }
    }
}

/// The errors that a handler can answer with.
#[derive(Debug)]
pub enum AppError {
    BadRequest(String),
    NotFound(String),
    Internal(String),
    Cancelled(String),
    Conflict(String),
    Unauthorized(String),
}

impl AppError {
    /// The HTTP status of the response.
    pub open spec fn status_of(&self) -> u16 {
        match self {
            AppError::BadRequest(_) => 400,
            AppError::NotFound(_) => 404,
            AppError::Internal(_) => 500,
            AppError::Cancelled(_) => 200,
            AppError::Conflict(_) => 409,
            AppError::Unauthorized(_) => 401,
        }
    }

    /// The code carried in the envelope.
    pub open spec fn code_of(&self) -> i32 {
        match self {
            AppError::BadRequest(_) => 400,
            AppError::NotFound(_) => 404,
            AppError::Internal(_) => 500,
            AppError::Cancelled(_) => 1,
            AppError::Conflict(_) => 409,
            AppError::Unauthorized(_) => 401,
        }
    }

    /// The detail text that the error carries.
    pub open spec fn detail_of(&self) -> Seq<char> {
        match self {
            AppError::BadRequest(m) => m@,
            AppError::NotFound(m) => m@,
            AppError::Internal(m) => m@,
            AppError::Cancelled(m) => m@,
            AppError::Conflict(m) => m@,
            AppError::Unauthorized(m) => m@,
        }
    }

    /// The text that the error displays: its kind, a colon and the detail.
    pub open spec fn message_of(&self) -> Seq<char> {
        match self {
            AppError::BadRequest(m) => "Bad Request: "@ + m@,
            AppError::NotFound(m) => "Not Found: "@ + m@,
            AppError::Internal(m) => "Internal Error: "@ + m@,
            AppError::Cancelled(m) => "Request Cancelled: "@ + m@,
            AppError::Conflict(m) => "Conflict: "@ + m@,
            AppError::Unauthorized(m) => "Unauthorized: "@ + m@,
        }
    }

    /// A request body that could not be read as JSON: a bad request whose
    /// detail is the rejection text.
    pub fn from_rejection_text(text: String) -> (r: AppError)
        ensures
            r == AppError::BadRequest(text),
    {
        AppError::BadRequest(text)
    }

    pub fn status(&self) -> (r: u16)
        ensures
            r == self.status_of(),
    {
        match self {
            AppError::BadRequest(_) => 400,
            AppError::NotFound(_) => 404,
            AppError::Internal(_) => 500,
            AppError::Cancelled(_) => 200,
            AppError::Conflict(_) => 409,
            AppError::Unauthorized(_) => 401,
        }
    }

    pub fn code(&self) -> (r: i32)
        ensures
            r == self.code_of(),
    {
        match self {
            AppError::BadRequest(_) => 400,
            AppError::NotFound(_) => 404,
            AppError::Internal(_) => 500,
            AppError::Cancelled(_) => 1,
            AppError::Conflict(_) => 409,
            AppError::Unauthorized(_) => 401,
        }
    }

    /// The text that the error displays.
    pub fn message(&self) -> (r: String)
        ensures
            r@ == self.message_of(),
    {
        match self {
            AppError::BadRequest(m) => joined("Bad Request: ", m.as_str()),
            AppError::NotFound(m) => joined("Not Found: ", m.as_str()),
            AppError::Internal(m) => joined("Internal Error: ", m.as_str()),
            AppError::Cancelled(m) => joined("Request Cancelled: ", m.as_str()),
            AppError::Conflict(m) => joined("Conflict: ", m.as_str()),
            AppError::Unauthorized(m) => joined("Unauthorized: ", m.as_str()),
        }
    }

    /// The status and the error envelope that answer a request failing with
    /// this error; the envelope's message is the error's detail text.
    pub fn to_response(self) -> (r: (u16, ApiResponse<()>))
        ensures
            r.0 == self.status_of(),
            r.1.code == self.code_of(),
            r.1.msg@ == self.detail_of(),
            r.1.data is None,
    {
        let status = self.status();
        let code = self.code();
        let msg = match self {
            AppError::BadRequest(m) => m,
            AppError::NotFound(m) => m,
            AppError::Internal(m) => m,
            AppError::Cancelled(m) => m,
            AppError::Conflict(m) => m,
            AppError::Unauthorized(m) => m,
        };
        (status, ApiResponse::error(code, msg))
    }
}

/// The standard result of a handler.
pub type ApiResult<T> = Result<Reply<T>, AppError>;

/// A request body read as JSON.
pub struct AppJson<T>(pub T);

/// Shorthands that wrap a value as a successful handler result.
pub trait ToApiResult: Sized {
    /// The value as a successful result with code 0.
    fn ok(self) -> (r: ApiResult<Self>)
        ensures
            r matches Ok(reply) && reply.0 == self && reply.1 == 0,
    {
        Ok(Reply(self, 0))
    }

    /// The value as a successful result with the given code.
    fn with_code(self, code: i32) -> (r: ApiResult<Self>)
        ensures
            r matches Ok(reply) && reply.0 == self && reply.1 == code,
    {
        Ok(Reply(self, code))
    }
}

impl<T> ToApiResult for T {

}

} // verus!
