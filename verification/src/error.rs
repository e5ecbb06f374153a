//! What the relay server answers when it refuses a request.
use vstd::prelude::*;

verus! {

/// A refused request: each variant maps to one HTTP status.
#[derive(Debug, Clone, PartialEq, Eq)]
pub enum ApiError {
    /// 400, with a message for the client.
    BadRequest(String),
    /// 401.
    Unauthorized,
    /// 403.
    Forbidden,
    /// 404.
    NotFound,
    /// 409, with a message for the client.
    Conflict(String),
    /// 500; the text is logged, never shown to the client.
    Internal(String),
}

/// Whether a result is `BadRequest` with the given message.
pub open spec fn is_bad_request<T>(res: Result<T, ApiError>, message: Seq<char>) -> bool {
    match res {
        Err(ApiError::BadRequest(m)) => m@ == message,
        _ => false,
    }
}

/// Whether a result is `Conflict` with the given message.
pub open spec fn is_conflict<T>(res: Result<T, ApiError>, message: Seq<char>) -> bool {
    match res {
        Err(ApiError::Conflict(m)) => m@ == message,
        _ => false,
    }
}

impl ApiError {
    /// The HTTP status code of the error.
    pub fn status_code(&self) -> (code: u16)
        ensures
            self is BadRequest ==> code == 400,
            self is Unauthorized ==> code == 401,
            self is Forbidden ==> code == 403,
            self is NotFound ==> code == 404,
            self is Conflict ==> code == 409,
            self is Internal ==> code == 500,
    {
        match self {
            ApiError::BadRequest(_) => 400,
            ApiError::Unauthorized => 401,
            ApiError::Forbidden => 403,
            ApiError::NotFound => 404,
            ApiError::Conflict(_) => 409,
            ApiError::Internal(_) => 500,
        }
    }
}

} // verus!
