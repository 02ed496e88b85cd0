//! The service's errors and the replies they turn into.

use crate::response::{Response, ResponseModel, STATUS_BAD_REQUEST, STATUS_INTERNAL_SERVER_ERROR};
use vstd::prelude::*;
use vstd::string::StringExecFns;

verus! {

/// What can go wrong in the service. Each variant holds the message of the
/// failure that it stands for.
#[derive(Debug, PartialEq, Eq)]
pub enum WesterError {
    /// Reading or writing failed.
    Io(String),
    /// A text was not valid JSON.
    SerdeJson(String),
    /// The web framework reported an error.
    ActixUrl(String),
    /// The logger could not be installed.
    SetLoggerError(String),
}

impl WesterError {
    /// The words that introduce the message.
    pub open spec fn label(&self) -> Seq<char> {
        match self {
            WesterError::Io(_) => "I/O error: "@,
            WesterError::SerdeJson(_) => "Serde Json Error: "@,
            WesterError::ActixUrl(_) => "Actix Web Error: "@,
            WesterError::SetLoggerError(_) => "Set Logger Error: "@,
        }
    }

    /// The message of the failure itself.
    pub open spec fn detail(&self) -> Seq<char> {
        match self {
            WesterError::Io(m) => m@,
            WesterError::SerdeJson(m) => m@,
            WesterError::ActixUrl(m) => m@,
            WesterError::SetLoggerError(m) => m@,
        }
    }

    /// The error as one line of text: label, then message.
    pub open spec fn description(&self) -> Seq<char> {
        self.label() + self.detail()
    }

    /// The status of the reply: a malformed JSON text is the caller's fault,
    /// everything else the server's.
    pub open spec fn status_code(&self) -> u16 {
        match self {
            WesterError::SerdeJson(_) => STATUS_BAD_REQUEST,
            _ => STATUS_INTERNAL_SERVER_ERROR,
        }
    }

    /// The error as one line of text.
    pub fn message(&self) -> (out: String)
        ensures
            out@ == self.description(),
    {
        match self {
            WesterError::Io(m) => String::from_str("I/O error: ").concat(m.as_str()),
            WesterError::SerdeJson(m) => String::from_str("Serde Json Error: ").concat(m.as_str()),
            WesterError::ActixUrl(m) => String::from_str("Actix Web Error: ").concat(m.as_str()),
            WesterError::SetLoggerError(m) => String::from_str("Set Logger Error: ").concat(
                m.as_str(),
            ),
        }
    }

    /// The status of the reply that reports this error.
    pub fn status(&self) -> (out: u16)
        ensures
            out == self.status_code(),
    {
        match self {
            WesterError::SerdeJson(_) => STATUS_BAD_REQUEST,
            _ => STATUS_INTERNAL_SERVER_ERROR,
        }
    }

    /// The reply that reports this error to the caller: its status, and its
    /// description as the body.
    pub fn error_response(&self) -> (out: Response)
        ensures
            out@ == (ResponseModel {
                status: self.status_code(),
                content_type: None,
                body: self.description(),
            }),
    {
        Response { status: self.status(), content_type: None, body: self.message() }
    }
}

} // verus!
