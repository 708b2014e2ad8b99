//! Error taxonomy for the translation core.

use vstd::prelude::*;
use vstd::string::StringExecFns;

verus! {

/// Errors that the translation core can report.
#[derive(Debug)]
pub enum Error {
    /// Configuration error, surfaced before any model work begins.
    Config(String),
    /// Model loading error, fatal for the worker instance that hit it.
    ModelLoad(String),
    /// Inference error, scoped to a single request.
    Inference(String),
    /// A language code outside the supported set.
    UnsupportedLanguage(String),
}

/// The human-readable description of an error.
pub open spec fn error_message_spec(e: Error) -> Seq<char> {
    match e {
        Error::Config(m) => "Configuration error: "@ + m@,
        Error::ModelLoad(m) => "Failed to load model: "@ + m@,
        Error::Inference(m) => "Inference error: "@ + m@,
        Error::UnsupportedLanguage(m) => "Unsupported language: "@ + m@,
    }
}

impl Error {
    /// Render the error as a human-readable message.
    pub fn message(&self) -> (r: String)
        ensures
            r@ == error_message_spec(*self),
    {
        match self {
            Error::Config(m) => {
                let mut s = "Configuration error: ".to_owned();
                s.append(m.as_str());
                s
            },
            Error::ModelLoad(m) => {
                let mut s = "Failed to load model: ".to_owned();
                s.append(m.as_str());
                s
            },
            Error::Inference(m) => {
                let mut s = "Inference error: ".to_owned();
                s.append(m.as_str());
                s
            },
            Error::UnsupportedLanguage(m) => {
                let mut s = "Unsupported language: ".to_owned();
                s.append(m.as_str());
                s
            },
        }
    }
}

} // verus!
