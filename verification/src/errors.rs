//! Replies and failures of the request handlers, with the HTTP status that
//! each one is answered with.

use vstd::prelude::*;
use crate::models::User;

verus! {

/// A successful reply: a list of accounts (status 200), or a status code
/// with a text.
#[derive(Clone, Debug)]
pub enum ApiResponse {
    Json(Vec<User>),
    Message(u16, String),
}

/// Failures of authentication.
#[derive(Clone, Copy, Debug, PartialEq, Eq, Structural)]
pub enum AuthError {
    WrongCredentials,
    TokenCreation,
    InvalidToken,
    InvalidHashFormat,
    PasswordHashDontMatch,
}

/// Failures of the account handlers; each carries the text of the reply.
#[derive(Clone, Debug)]
pub enum AppError {
    EmailAlreadyExist(String),
    InvalidInput(String),
    UserNotFound(String),
    InternalDbError(String),
    Forbidden(String),
}

/// The status code that answers a successful reply.
pub open spec fn response_status(r: ApiResponse) -> u16 {
    match r {
        ApiResponse::Json(_) => 200,
        ApiResponse::Message(code, _) => code,
    }
}

/// The status code that answers an authentication failure.
pub open spec fn auth_error_status(e: AuthError) -> u16 {
    match e {
        AuthError::WrongCredentials => 401,
        AuthError::TokenCreation => 500,
        AuthError::InvalidToken => 400,
        AuthError::InvalidHashFormat => 500,
        AuthError::PasswordHashDontMatch => 401,
    }
}

/// The text of the `error` field that answers an authentication failure.
pub open spec fn auth_error_text(e: AuthError) -> Seq<char> {
    match e {
        AuthError::WrongCredentials => "Wrong credentials"@,
        AuthError::TokenCreation => "Token creation error"@,
        AuthError::InvalidToken => "Invalid token"@,
        AuthError::InvalidHashFormat => "Invalid password hash format"@,
        AuthError::PasswordHashDontMatch => "Wrong credentials"@,
    }
}

/// The status code that answers an account handler failure.
pub open spec fn app_error_status(e: AppError) -> u16 {
    match e {
        AppError::EmailAlreadyExist(_) => 400,
        AppError::InvalidInput(_) => 422,
        AppError::UserNotFound(_) => 404,
        AppError::InternalDbError(_) => 500,
        AppError::Forbidden(_) => 403,
    }
}

/// The text that an account handler failure carries.
pub open spec fn app_error_text(e: AppError) -> Seq<char> {
    match e {
        AppError::EmailAlreadyExist(m) => m@,
        AppError::InvalidInput(m) => m@,
        AppError::UserNotFound(m) => m@,
        AppError::InternalDbError(m) => m@,
        AppError::Forbidden(m) => m@,
    }
}

impl ApiResponse {
    /// The status code of this reply.
    pub fn status(&self) -> (code: u16)
        ensures
            code == response_status(*self),
    {
        match self {
            ApiResponse::Json(_) => 200,
            ApiResponse::Message(code, _) => *code,
        }
    }
}

impl AuthError {
    /// The status code that answers this failure.
    pub fn status(&self) -> (code: u16)
        ensures
            code == auth_error_status(*self),
    {
        match self {
            AuthError::WrongCredentials => 401,
            AuthError::TokenCreation => 500,
            AuthError::InvalidToken => 400,
            AuthError::InvalidHashFormat => 500,
            AuthError::PasswordHashDontMatch => 401,
        }
    }

    /// The text that answers this failure.
    pub fn message(&self) -> (text: &'static str)
        ensures
            text@ == auth_error_text(*self),
    {
        match self {
            AuthError::WrongCredentials => "Wrong credentials",
            AuthError::TokenCreation => "Token creation error",
            AuthError::InvalidToken => "Invalid token",
            AuthError::InvalidHashFormat => "Invalid password hash format",
            AuthError::PasswordHashDontMatch => "Wrong credentials",
        }
    }
}

impl AppError {
    /// The status code that answers this failure.
    pub fn status(&self) -> (code: u16)
        ensures
            code == app_error_status(*self),
    {
        match self {
            AppError::EmailAlreadyExist(_) => 400,
            AppError::InvalidInput(_) => 422,
            AppError::UserNotFound(_) => 404,
            AppError::InternalDbError(_) => 500,
            AppError::Forbidden(_) => 403,
        }
    }

    /// The text that this failure carries.
    pub fn message(&self) -> (text: &str)
        ensures
            text@ == app_error_text(*self),
    {
        match self {
            AppError::EmailAlreadyExist(m) => m.as_str(),
            AppError::InvalidInput(m) => m.as_str(),
            AppError::UserNotFound(m) => m.as_str(),
            AppError::InternalDbError(m) => m.as_str(),
            AppError::Forbidden(m) => m.as_str(),
        }
    }
}

} // verus!
