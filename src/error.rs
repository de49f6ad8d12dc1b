use vstd::prelude::*;

verus! {

/// The failures that an upload request can end in.
#[derive(Clone, Copy, Debug, PartialEq, Eq, Structural)]
pub enum AppError {
    Unauthorized,
    UnsupportedMediaType,
    FileTooLarge,
    BadRequest,
    TooManyRequests,
    Internal,
}

/// The code that the response body carries for each failure.
pub open spec fn error_code(e: AppError) -> Seq<char> {
    match e {
        AppError::Unauthorized => "unauthorized"@,
        AppError::UnsupportedMediaType => "unsupported_media_type"@,
        AppError::FileTooLarge => "file_too_large"@,
        AppError::BadRequest => "bad_request"@,
        AppError::TooManyRequests => "too_many_requests"@,
        AppError::Internal => "internal_error"@,
    }
}

/// The HTTP status that each failure is answered with.
pub open spec fn http_status(e: AppError) -> u16 {
    match e {
        AppError::Unauthorized => 401,
        AppError::UnsupportedMediaType => 415,
        AppError::FileTooLarge => 413,
        AppError::BadRequest => 400,
        AppError::TooManyRequests => 429,
        AppError::Internal => 500,
    }
}

impl AppError {
    /// The code written as `{"error": code}` in the response body.
    pub fn code(&self) -> (r: &'static str)
        ensures
            r@ == error_code(*self),
    {
        match self {
            AppError::Unauthorized => "unauthorized",
            AppError::UnsupportedMediaType => "unsupported_media_type",
            AppError::FileTooLarge => "file_too_large",
            AppError::BadRequest => "bad_request",
            AppError::TooManyRequests => "too_many_requests",
            AppError::Internal => "internal_error",
        }
    }

    /// The HTTP status code of the response.
    pub fn status(&self) -> (r: u16)
        ensures
            r == http_status(*self),
    {
        match self {
            AppError::Unauthorized => 401,
            AppError::UnsupportedMediaType => 415,
            AppError::FileTooLarge => 413,
            AppError::BadRequest => 400,
            AppError::TooManyRequests => 429,
            AppError::Internal => 500,
        }
    }
}

} // verus!
