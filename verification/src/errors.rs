//! The error type shared by the Deva tools.

use vstd::prelude::*;

verus! {

/// `std::io::Error`, held opaque.
#[verifier::external_type_specification]
#[verifier::external_body]
pub struct ExIoError(std::io::Error);

/// `serde_json::Error`, held opaque.
#[verifier::external_type_specification]
#[verifier::external_body]
pub struct ExJsonError(serde_json::Error);

/// The `Display` text of an I/O error (`ToString::to_string`). Nothing is
/// claimed of it: the text of an OS error comes from the platform.
#[verifier::external_body]
pub(crate) fn io_error_text(e: &std::io::Error) -> String {
    e.to_string()
}

/// The `Display` text of a `serde_json::Error` (`ToString::to_string`).
/// Nothing is claimed of it: the error is opaque here.
#[verifier::external_body]
fn json_error_text(e: &serde_json::Error) -> String {
    e.to_string()
}

/// Errors of the Deva tools.
#[derive(Debug)]
pub enum DevaError {
    Io(std::io::Error),
    Json(serde_json::Error),
    Config(String),
    Network(String),
    Auth(String),
    NotFound(String),
    Validation(String),
    GitHub(String),
    AzureDevOps(String),
    Telegram(String),
    Scaffolding(String),
}

/// The prefix of the message of each kind of error.
pub open spec fn message_prefix(e: DevaError) -> Seq<char> {
    match e {
        DevaError::Io(_) => "IO error: "@,
        DevaError::Json(_) => "JSON error: "@,
        DevaError::Config(_) => "Config error: "@,
        DevaError::Network(_) => "Network error: "@,
        DevaError::Auth(_) => "Auth error: "@,
        DevaError::NotFound(_) => "Not found: "@,
        DevaError::Validation(_) => "Validation error: "@,
        DevaError::GitHub(_) => "GitHub error: "@,
        DevaError::AzureDevOps(_) => "Azure DevOps error: "@,
        DevaError::Telegram(_) => "Telegram error: "@,
        DevaError::Scaffolding(_) => "Scaffolding error: "@,
    }
}

/// The detail that an error carries as text, for the kinds that carry one.
pub open spec fn message_detail(e: DevaError) -> Option<Seq<char>> {
    match e {
        DevaError::Io(_) => None,
        DevaError::Json(_) => None,
        DevaError::Config(s) => Some(s@),
        DevaError::Network(s) => Some(s@),
        DevaError::Auth(s) => Some(s@),
        DevaError::NotFound(s) => Some(s@),
        DevaError::Validation(s) => Some(s@),
        DevaError::GitHub(s) => Some(s@),
        DevaError::AzureDevOps(s) => Some(s@),
        DevaError::Telegram(s) => Some(s@),
        DevaError::Scaffolding(s) => Some(s@),
    }
}

impl DevaError {
    /// The human-readable message: the kind's prefix, then the detail (for
    /// I/O and JSON errors, the text of the wrapped error).
    pub fn message(&self) -> (m: String)
        ensures
            exists|t: Seq<char>| m@ == message_prefix(*self) + t,
            message_detail(*self) is Some ==> m@ == message_prefix(*self) + message_detail(*self)->0,
    {
        let (prefix, detail) = match self {
            DevaError::Io(e) => ("IO error: ", io_error_text(e)),
            DevaError::Json(e) => ("JSON error: ", json_error_text(e)),
            DevaError::Config(s) => ("Config error: ", s.clone()),
            DevaError::Network(s) => ("Network error: ", s.clone()),
            DevaError::Auth(s) => ("Auth error: ", s.clone()),
            DevaError::NotFound(s) => ("Not found: ", s.clone()),
            DevaError::Validation(s) => ("Validation error: ", s.clone()),
            DevaError::GitHub(s) => ("GitHub error: ", s.clone()),
            DevaError::AzureDevOps(s) => ("Azure DevOps error: ", s.clone()),
            DevaError::Telegram(s) => ("Telegram error: ", s.clone()),
            DevaError::Scaffolding(s) => ("Scaffolding error: ", s.clone()),
        };
        let mut m = String::from_str(prefix);
        m.append(detail.as_str());
        assert(m@ == message_prefix(*self) + detail@);
        m
    }
}

impl From<std::io::Error> for DevaError {
    fn from(e: std::io::Error) -> (r: Self) {
        DevaError::Io(e)
    }
}

impl vstd::std_specs::convert::FromSpecImpl<std::io::Error> for DevaError {
    open spec fn obeys_from_spec() -> bool {
        true
    }

    open spec fn from_spec(v: std::io::Error) -> Self {
        DevaError::Io(v)
    }
}

impl From<serde_json::Error> for DevaError {
    fn from(e: serde_json::Error) -> (r: Self) {
        DevaError::Json(e)
    }
}

impl vstd::std_specs::convert::FromSpecImpl<serde_json::Error> for DevaError {
    open spec fn obeys_from_spec() -> bool {
        true
    }

    open spec fn from_spec(v: serde_json::Error) -> Self {
        DevaError::Json(v)
    }
}

} // verus!
