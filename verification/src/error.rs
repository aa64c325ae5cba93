//! Errors of the chat service and what an HTTP client is told of them.

use crate::text::owned;
use vstd::prelude::*;
use vstd::string::StringExecFns;

verus! {

/// The JSON body of an error response: a single human-readable message.
#[derive(Debug)]
pub struct ErrorOutput {
    pub error: String,
}

impl ErrorOutput {
    /// Wraps `error` as the message of an error body.
    pub fn new<T: Into<String>>(error: T) -> (out: Self)
        ensures
            call_ensures(T::into, (error,), out.error),
    {
        ErrorOutput { error: error.into() }
    }
}

/// What can go wrong in the chat service. Each variant carries the detail
/// that its message ends with; an error that came from elsewhere is kept by
/// its text.
#[derive(Debug, PartialEq, Eq)]
pub enum AppError {
    EmailAlreadyExists(String),
    CreateChatError(String),
    UpdateChatError(String),
    CreateMessageError(String),
    ChatFileError(String),
    NotFound(String),
    IoError(String),
    SqlxError(String),
    PasswordHashError(String),
    AnyError(String),
    HttpHeaderError(String),
}

impl AppError {
    /// The HTTP status that the error is answered with.
    pub open spec fn status(self) -> u16 {
        match self {
            AppError::EmailAlreadyExists(_) => 409,
            AppError::CreateChatError(_) => 400,
            AppError::UpdateChatError(_) => 400,
            AppError::CreateMessageError(_) => 400,
            AppError::ChatFileError(_) => 400,
            AppError::NotFound(_) => 404,
            AppError::IoError(_) => 500,
            AppError::SqlxError(_) => 500,
            AppError::PasswordHashError(_) => 422,
            AppError::AnyError(_) => 500,
            AppError::HttpHeaderError(_) => 422,
        }
    }

    /// What the error's message begins with.
    pub open spec fn heading(self) -> Seq<char> {
        match self {
            AppError::EmailAlreadyExists(_) => "email already exists: "@,
            AppError::CreateChatError(_) => "create chat error: "@,
            AppError::UpdateChatError(_) => "update chat error: "@,
            AppError::CreateMessageError(_) => "create message error: "@,
            AppError::ChatFileError(_) => "chat file error: "@,
            AppError::NotFound(_) => "not found: "@,
            AppError::IoError(_) => "io error: "@,
            AppError::SqlxError(_) => "sql error: "@,
            AppError::PasswordHashError(_) => "password hash error: "@,
            AppError::AnyError(_) => "general error: "@,
            AppError::HttpHeaderError(_) => "http header parse error: "@,
        }
    }

    /// The detail that the error carries.
    pub open spec fn detail(self) -> Seq<char> {
        match self {
            AppError::EmailAlreadyExists(d) => d@,
            AppError::CreateChatError(d) => d@,
            AppError::UpdateChatError(d) => d@,
            AppError::CreateMessageError(d) => d@,
            AppError::ChatFileError(d) => d@,
            AppError::NotFound(d) => d@,
            AppError::IoError(d) => d@,
            AppError::SqlxError(d) => d@,
            AppError::PasswordHashError(d) => d@,
            AppError::AnyError(d) => d@,
            AppError::HttpHeaderError(d) => d@,
        }
    }

    /// The HTTP status that the error is answered with.
    pub fn status_code(&self) -> (code: u16)
        ensures
            code == self.status(),
    {
        match self {
            AppError::EmailAlreadyExists(_) => 409,
            AppError::CreateChatError(_) => 400,
            AppError::UpdateChatError(_) => 400,
            AppError::CreateMessageError(_) => 400,
            AppError::ChatFileError(_) => 400,
            AppError::NotFound(_) => 404,
            AppError::IoError(_) => 500,
            AppError::SqlxError(_) => 500,
            AppError::PasswordHashError(_) => 422,
            AppError::AnyError(_) => 500,
            AppError::HttpHeaderError(_) => 422,
        }
    }

    /// The error's message: its heading, then its detail.
    pub fn message(&self) -> (text: String)
        ensures
            text@ == self.heading() + self.detail(),
    {
        let (heading, detail) = match self {
            AppError::EmailAlreadyExists(d) => ("email already exists: ", d),
            AppError::CreateChatError(d) => ("create chat error: ", d),
            AppError::UpdateChatError(d) => ("update chat error: ", d),
            AppError::CreateMessageError(d) => ("create message error: ", d),
            AppError::ChatFileError(d) => ("chat file error: ", d),
            AppError::NotFound(d) => ("not found: ", d),
            AppError::IoError(d) => ("io error: ", d),
            AppError::SqlxError(d) => ("sql error: ", d),
            AppError::PasswordHashError(d) => ("password hash error: ", d),
            AppError::AnyError(d) => ("general error: ", d),
            AppError::HttpHeaderError(d) => ("http header parse error: ", d),
        };
        let mut text = owned(heading);
        text.append(detail.as_str());
        text
    }

    /// The body of the response that answers the error: its message.
    pub fn output(&self) -> (out: ErrorOutput)
        ensures
            out.error@ == self.heading() + self.detail(),
    {
        ErrorOutput { error: self.message() }
    }
}

} // verus!
