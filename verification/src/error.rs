//! The application's error type: what went wrong, the message shown for it, and the
//! HTTP status an admin request answers it with.

use vstd::prelude::*;

verus! {

/// Everything that can go wrong while serving a request or a chat message.
///
/// Errors raised by the database, the connection pool, HTTP, JSON and the file system
/// are carried by their rendered message.
#[derive(Debug, Clone, PartialEq, Eq)]
pub enum AppError {
    Database(String),
    Pool(String),
    Http(String),
    Json(String),
    Config(String),
    Telegram(String),
    AiApi(String),
    UnknownTool(String),
    Validation(String),
    Io(String),
}

/// The prefix that names the kind of an error in its message.
pub open spec fn error_prefix(e: AppError) -> Seq<char> {
    match e {
        AppError::Database(_) => "Database error: "@,
        AppError::Pool(_) => "Database pool error: "@,
        AppError::Http(_) => "HTTP request error: "@,
        AppError::Json(_) => "JSON error: "@,
        AppError::Config(_) => "Configuration error: "@,
        AppError::Telegram(_) => "Telegram API error: "@,
        AppError::AiApi(_) => "AI API error: "@,
        AppError::UnknownTool(_) => "Unknown tool: "@,
        AppError::Validation(_) => "Validation error: "@,
        AppError::Io(_) => "IO error: "@,
    }
}

/// The detail that an error carries.
pub open spec fn error_detail(e: AppError) -> Seq<char> {
    match e {
        AppError::Database(s) => s@,
        AppError::Pool(s) => s@,
        AppError::Http(s) => s@,
        AppError::Json(s) => s@,
        AppError::Config(s) => s@,
        AppError::Telegram(s) => s@,
        AppError::AiApi(s) => s@,
        AppError::UnknownTool(s) => s@,
        AppError::Validation(s) => s@,
        AppError::Io(s) => s@,
    }
}

/// The HTTP status an error is answered with: a bad request for what the caller sent,
/// a bad gateway for what an upstream service did, and an internal error otherwise.
pub open spec fn error_status(e: AppError) -> u16 {
    match e {
        AppError::Validation(_) | AppError::UnknownTool(_) => 400,
        AppError::Telegram(_) | AppError::AiApi(_) => 502,
        _ => 500,
    }
}

impl AppError {
    /// The prefix naming the kind of error.
    pub fn prefix(&self) -> (r: &'static str)
        ensures
            r@ == error_prefix(*self),
    {
        match self {
            AppError::Database(_) => "Database error: ",
            AppError::Pool(_) => "Database pool error: ",
            AppError::Http(_) => "HTTP request error: ",
            AppError::Json(_) => "JSON error: ",
            AppError::Config(_) => "Configuration error: ",
            AppError::Telegram(_) => "Telegram API error: ",
            AppError::AiApi(_) => "AI API error: ",
            AppError::UnknownTool(_) => "Unknown tool: ",
            AppError::Validation(_) => "Validation error: ",
            AppError::Io(_) => "IO error: ",
        }
    }

    /// The detail the error carries.
    pub fn detail(&self) -> (r: &String)
        ensures
            r@ == error_detail(*self),
    {
        match self {
            AppError::Database(s) => s,
            AppError::Pool(s) => s,
            AppError::Http(s) => s,
            AppError::Json(s) => s,
            AppError::Config(s) => s,
            AppError::Telegram(s) => s,
            AppError::AiApi(s) => s,
            AppError::UnknownTool(s) => s,
            AppError::Validation(s) => s,
            AppError::Io(s) => s,
        }
    }

    /// The message of the error: its kind, then its detail.
    pub fn to_string(&self) -> (r: String)
        ensures
            r@ == error_prefix(*self) + error_detail(*self),
    {
        let mut r = String::from_str(self.prefix());
        r.append(self.detail().as_str());
        r
    }

    /// The HTTP status an admin request that failed with this error is answered with.
    pub fn status_code(&self) -> (r: u16)
        ensures
            r == error_status(*self),
    {
        match self {
            AppError::Validation(_) | AppError::UnknownTool(_) => 400,
            AppError::Telegram(_) | AppError::AiApi(_) => 502,
            _ => 500,
        }
    }
}

} // verus!
