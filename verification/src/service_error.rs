//! The typed failure a service start reports, and its text form.

use vstd::prelude::*;
use vstd::string::StringExecFns;
use crate::startup::ErrorText;

verus! {

/// A service-startup failure: either the fixed failure, or one carrying a
/// custom message.
#[derive(Debug, PartialEq, Clone)]
pub enum Error {
    FailedToStart,
    Custom(String),
}

impl ErrorText for Error {
    /// The fixed failure has a fixed text; a custom failure shows its message
    /// behind the custom prefix.
    open spec fn text_spec(&self) -> Seq<char> {
        match self {
            Error::FailedToStart => "Failed to start service"@,
            Error::Custom(msg) => "Custom Service error: "@ + msg@,
        }
    }

    fn to_text(&self) -> (r: String) {
        match self {
            Error::FailedToStart => "Failed to start service".to_owned(),
            Error::Custom(msg) => String::from_str("Custom Service error: ").concat(msg.as_str()),
        }
    }
}

} // verus!
