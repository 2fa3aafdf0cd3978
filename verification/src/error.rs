//! Top-level error type used by transport, protocol, and UI layers.
use vstd::prelude::*;

use crate::text::{cat, string_of};

verus! {

/// `std::io::Error`, carried opaquely.
#[verifier::external_type_specification]
#[verifier::external_body]
pub struct ExIoError(std::io::Error);

/// Common result type used throughout the crate.
pub type AppResult<T> = Result<T, AppError>;

/// Top-level error type used by transport, protocol, and UI layers.
#[derive(Debug)]
pub enum AppError {
    /// Underlying I/O failure (network/socket/terminal).
    Io(std::io::Error),
    /// Protocol-level request/response handling failure.
    Protocol(String),
    /// BOINC GUI RPC authentication rejected credentials.
    AuthenticationFailed,
    /// BOINC response payload was malformed or missing required fields.
    InvalidResponse(String),
    /// UI/runtime interaction error.
    Ui(String),
    /// Configuration input was invalid (template slug, profile, env var).
    Config(String),
}

impl AppError {
    /// Errors that may resolve on retry: network, framing and malformed replies.
    pub open spec fn transient(&self) -> bool {
        match self {
            AppError::Io(_) => true,
            AppError::Protocol(_) => true,
            AppError::InvalidResponse(_) => true,
            AppError::AuthenticationFailed => false,
            AppError::Ui(_) => false,
            AppError::Config(_) => false,
        }
    }

    /// Returns `true` for errors that may resolve on retry (network/socket/framing),
    /// `false` for errors that require human action (wrong password, etc.).
    pub fn is_transient(&self) -> (r: bool)
        ensures
            r == self.transient(),
    {
        match self {
            AppError::Io(_) => true,
            AppError::Protocol(_) => true,
            AppError::InvalidResponse(_) => true,
            AppError::AuthenticationFailed => false,
            AppError::Ui(_) => false,
            AppError::Config(_) => false,
        }
    }
}

/// The text `Display` shows for an I/O error.
///
/// Calls std's `<std::io::Error as Display>::fmt`; the text depends on the
/// platform's error descriptions, so nothing is claimed about it.
#[verifier::external_body]
pub(crate) fn io_error_text(e: &std::io::Error) -> String {
    e.to_string()
}

impl AppError {
    /// The message of this error; for an I/O error, the prefix that comes
    /// before the underlying error's own text.
    pub open spec fn message(&self) -> Seq<char> {
        match self {
            AppError::Io(_) => "I/O error: "@,
            AppError::Protocol(s) => "RPC protocol error: "@ + s@,
            AppError::AuthenticationFailed => "RPC authentication failed"@,
            AppError::InvalidResponse(s) => "Invalid BOINC response: "@ + s@,
            AppError::Ui(s) => "UI error: "@ + s@,
            AppError::Config(s) => "configuration error: "@ + s@,
        }
    }

    /// Renders the error message (what `Display` shows). For an I/O error the
    /// message is the stated prefix followed by the underlying error's text.
    pub fn to_string(&self) -> (r: String)
        ensures
            !(self is Io) ==> r@ == self.message(),
            self is Io ==> r@.len() >= self.message().len() && r@.take(self.message().len() as int)
                == self.message(),
    {
        match self {
            AppError::Io(e) => {
                let head = string_of("I/O error: ");
                let ghost h = head@;
                let r = cat(head, io_error_text(e).as_str());
                proof {
                    assert(r@.take(h.len() as int) =~= h);
                }
                r
            },
            AppError::Protocol(s) => cat(string_of("RPC protocol error: "), s.as_str()),
            AppError::AuthenticationFailed => string_of("RPC authentication failed"),
            AppError::InvalidResponse(s) => cat(string_of("Invalid BOINC response: "), s.as_str()),
            AppError::Ui(s) => cat(string_of("UI error: "), s.as_str()),
            AppError::Config(s) => cat(string_of("configuration error: "), s.as_str()),
        }
    }
}

/// The mathematical content of an [`AppError`]; an I/O error is carried
/// without its details.
pub enum ErrorView {
    Io,
    Protocol(Seq<char>),
    AuthenticationFailed,
    InvalidResponse(Seq<char>),
    Ui(Seq<char>),
    Config(Seq<char>),
}

impl View for AppError {
    type V = ErrorView;

    open spec fn view(&self) -> ErrorView {
        match self {
            AppError::Io(_) => ErrorView::Io,
            AppError::Protocol(s) => ErrorView::Protocol(s@),
            AppError::AuthenticationFailed => ErrorView::AuthenticationFailed,
            AppError::InvalidResponse(s) => ErrorView::InvalidResponse(s@),
            AppError::Ui(s) => ErrorView::Ui(s@),
            AppError::Config(s) => ErrorView::Config(s@),
        }
    }
}

} // verus!
