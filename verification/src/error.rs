//! Failure kinds of the script-path protocol.
//!
//! Every failure is fatal to the enclosing build step; each variant carries
//! the path or variable name a build operator needs to diagnose it.

use vstd::prelude::*;
use vstd::string::StringExecFns;

verus! {

/// A fatal error of one of the three protocol operations.
#[derive(Debug)]
pub enum PluginError {
    /// A required environment variable is absent; carries its name.
    MissingEnvironmentVariable(String),
    /// A script path could not be canonicalized; carries the path.
    PathResolutionFailure(String),
    /// A canonical script path does not lie under the output base; carries
    /// the path.
    PathOutsideBase(String),
    /// The manifest could not be encoded; carries the encoder's message.
    EncodingFailure(String),
    /// A manifest is present but malformed; carries the decoder's message.
    DecodingFailure(String),
    /// A file could not be read or written; carries the path and the
    /// underlying I/O message.
    IOFailure(String, String),
}

/// The diagnostic line that [`PluginError::message`] returns.
pub open spec fn message_spec(e: PluginError) -> Seq<char> {
    match e {
        PluginError::MissingEnvironmentVariable(name) => "required environment variable is not set: "@
            + name@,
        PluginError::PathResolutionFailure(path) => "failed to canonicalize global API script path: "@
            + path@,
        PluginError::PathOutsideBase(path) => "global API script path is outside the output base: "@
            + path@,
        PluginError::EncodingFailure(detail) => "failed to serialize global API script paths: "@
            + detail@,
        PluginError::DecodingFailure(detail) => "failed to parse global API script paths: "@
            + detail@,
        PluginError::IOFailure(path, detail) => "failed to access "@ + path@ + ": "@ + detail@,
    }
}

impl PluginError {
    /// A diagnostic line naming the failure and its context.
    pub fn message(&self) -> (r: String)
        ensures
            r@ == message_spec(*self),
    {
        match self {
            PluginError::MissingEnvironmentVariable(name) => {
                let mut m = String::from_str("required environment variable is not set: ");
                m.append(name.as_str());
                m
            },
            PluginError::PathResolutionFailure(path) => {
                let mut m = String::from_str("failed to canonicalize global API script path: ");
                m.append(path.as_str());
                m
            },
            PluginError::PathOutsideBase(path) => {
                let mut m = String::from_str("global API script path is outside the output base: ");
                m.append(path.as_str());
                m
            },
            PluginError::EncodingFailure(detail) => {
                let mut m = String::from_str("failed to serialize global API script paths: ");
                m.append(detail.as_str());
                m
            },
            PluginError::DecodingFailure(detail) => {
                let mut m = String::from_str("failed to parse global API script paths: ");
                m.append(detail.as_str());
                m
            },
            PluginError::IOFailure(path, detail) => {
                let mut m = String::from_str("failed to access ");
                m.append(path.as_str());
                m.append(": ");
                m.append(detail.as_str());
                m
            },
        }
    }
}

} // verus!
