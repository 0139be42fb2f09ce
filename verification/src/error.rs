//! Errors reported by the configuration state manager.

use vstd::prelude::*;
use vstd::string::StringExecFns;

verus! {

/// Why an update request was rejected.
///
/// The first three variants are validation errors: they are detected before
/// any mutation and name the offending value. `Commit` is an execution
/// error: applying the user-interface keymap to the running session failed
/// after validation had already passed.
#[derive(Debug)]
pub enum LocaleError {
    /// A locale code that the locale catalog does not know.
    UnknownLocale(String),
    /// A timezone code that the timezone catalog does not know.
    UnknownTimezone(String),
    /// A keymap identifier that the keymap catalog does not know.
    InvalidKeymap(String),
    /// The external command applying the user-interface keymap failed.
    Commit(String),
}

impl LocaleError {
    /// The message a caller would report for this error.
    pub open spec fn message_spec(&self) -> Seq<char> {
        match self {
            LocaleError::UnknownLocale(code) => "Unknown locale code: "@ + code@,
            LocaleError::UnknownTimezone(code) => "Unknown timezone: "@ + code@,
            LocaleError::InvalidKeymap(code) => "Invalid keymap: "@ + code@,
            LocaleError::Commit(detail) => "Could not apply the changes: "@ + detail@,
        }
    }

    /// Renders the error as text naming the offending field and value.
    pub fn message(&self) -> (r: String)
        ensures
            r@ == self.message_spec(),
    {
        match self {
            LocaleError::UnknownLocale(code) => {
                String::from_str("Unknown locale code: ").concat(code.as_str())
            },
            LocaleError::UnknownTimezone(code) => {
                String::from_str("Unknown timezone: ").concat(code.as_str())
            },
            LocaleError::InvalidKeymap(code) => {
                String::from_str("Invalid keymap: ").concat(code.as_str())
            },
            LocaleError::Commit(detail) => {
                String::from_str("Could not apply the changes: ").concat(detail.as_str())
            },
        }
    }
}

} // verus!
