//! The library's error type.

use vstd::prelude::*;

verus! {

/// A failure reported by the SQLite driver.
#[verifier::external_type_specification]
#[verifier::external_body]
pub struct ExSqliteError(rusqlite::Error);

/// A failure reported by the HTTP client.
#[verifier::external_type_specification]
#[verifier::external_body]
pub struct ExHttpError(reqwest::Error);

/// A failure reported by the JSON codec.
#[verifier::external_type_specification]
#[verifier::external_body]
pub struct ExJsonError(serde_json::Error);

/// Every error the ledger reports.
#[derive(Debug)]
pub enum AppError {
    Database(rusqlite::Error),
    Network(reqwest::Error),
    Json(serde_json::Error),
    InvalidParam(String),
    NotFound(String),
    AiError(String),
}

/// A result whose error is an [`AppError`].
pub type AppResult<T> = Result<T, AppError>;

/// The text that `Display` writes for an HTTP client error.
pub uninterp spec fn http_error_display(e: reqwest::Error) -> Seq<char>;

/// `rusqlite::Error`'s `to_string`: the driver's wording for the error. Nothing is
/// stated of it: for the variants that box another error, the text is whatever that
/// error's `Display` writes, so it need not be a function of the value.
#[verifier::external_body]
fn sqlite_error_text(e: &rusqlite::Error) -> String {
    e.to_string()
}

/// `reqwest::Error`'s `to_string`: the client's wording for the error, which depends on
/// the error value alone and is named `http_error_display`.
#[verifier::external_body]
fn http_error_text(e: &reqwest::Error) -> (text: String)
    ensures
        text@ == http_error_display(*e),
{
    e.to_string()
}

/// `serde_json::Error`'s `to_string`: the codec's wording for the error. Nothing is
/// stated of it: for an I/O error the text passes on the operating system's message,
/// which follows the process's locale, so it need not be a function of the value.
#[verifier::external_body]
fn json_error_text(e: &serde_json::Error) -> String {
    e.to_string()
}

/// The label that an error's text starts with.
pub open spec fn error_label(e: AppError) -> Seq<char> {
    match e {
        AppError::Database(_) => "Database error: "@,
        AppError::Network(_) => "Network error: "@,
        AppError::Json(_) => "JSON error: "@,
        AppError::InvalidParam(_) => "Invalid param: "@,
        AppError::NotFound(_) => "Not found: "@,
        AppError::AiError(_) => "AI error: "@,
    }
}

/// Prefixes `label` to `detail`.
fn labelled(label: &str, detail: &str) -> (text: String)
    ensures
        text@ == label@ + detail@,
{
    let mut text = String::from_str(label);
    text.append(detail);
    text
}

impl AppError {
    /// The error's text: its label, then its message, or the text of the driver,
    /// client or codec error it carries.
    pub fn to_string(&self) -> (text: String)
        ensures
            text@.len() >= error_label(*self).len(),
            text@.subrange(0, error_label(*self).len() as int) == error_label(*self),
            self matches AppError::InvalidParam(m) ==> text@ == error_label(*self) + m@,
            self matches AppError::NotFound(m) ==> text@ == error_label(*self) + m@,
            self matches AppError::AiError(m) ==> text@ == error_label(*self) + m@,
            self matches AppError::Network(e) ==> text@ == error_label(*self) + http_error_display(*e),
    {
        let text = match self {
            AppError::Database(e) => labelled("Database error: ", sqlite_error_text(e).as_str()),
            AppError::Network(e) => labelled("Network error: ", http_error_text(e).as_str()),
            AppError::Json(e) => labelled("JSON error: ", json_error_text(e).as_str()),
            AppError::InvalidParam(m) => labelled("Invalid param: ", m.as_str()),
            AppError::NotFound(m) => labelled("Not found: ", m.as_str()),
            AppError::AiError(m) => labelled("AI error: ", m.as_str()),
        };
        assert(text@.subrange(0, error_label(*self).len() as int) =~= error_label(*self));
        text
    }
}

impl From<rusqlite::Error> for AppError {
    fn from(e: rusqlite::Error) -> (r: AppError) {
        AppError::Database(e)
    }
}

impl vstd::std_specs::convert::FromSpecImpl<rusqlite::Error> for AppError {
    open spec fn obeys_from_spec() -> bool {
        true
    }

    open spec fn from_spec(e: rusqlite::Error) -> AppError {
        AppError::Database(e)
    }
}

impl From<reqwest::Error> for AppError {
    fn from(e: reqwest::Error) -> (r: AppError) {
        AppError::Network(e)
    }
}

impl vstd::std_specs::convert::FromSpecImpl<reqwest::Error> for AppError {
    open spec fn obeys_from_spec() -> bool {
        true
    }

    open spec fn from_spec(e: reqwest::Error) -> AppError {
        AppError::Network(e)
    }
}

impl From<serde_json::Error> for AppError {
    fn from(e: serde_json::Error) -> (r: AppError) {
        AppError::Json(e)
    }
}

impl vstd::std_specs::convert::FromSpecImpl<serde_json::Error> for AppError {
    open spec fn obeys_from_spec() -> bool {
        true
    }

    open spec fn from_spec(e: serde_json::Error) -> AppError {
        AppError::Json(e)
    }
}

} // verus!
