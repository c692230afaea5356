use vstd::prelude::*;

verus! {

/// Errors that can occur when building an exporter.
#[derive(Debug, PartialEq, Eq)]
#[non_exhaustive]
pub enum ExporterBuildError {
    /// The provided URL was invalid.
    InvalidUrl {
        /// The URL that failed to parse
        url: String,
        /// The error message
        message: String,
    },
    /// The specified backend does not exist in the Fastly service configuration.
    MissingBackend {
        /// The name of the missing backend
        name: String,
    },
}

/// What `format!("{:?}", s)` writes for the string `s`: the string quoted,
/// with the characters that `str`'s `Debug` escapes escaped.
pub uninterp spec fn debug_quoted(s: Seq<char>) -> Seq<char>;

/// Calls `<str as Debug>::fmt` through `format!`.
/// Claimed: the text depends on `s` alone, and is named `debug_quoted(s@)`.
#[verifier::external_body]
fn debug_text(s: &str) -> (r: String)
    ensures
        r@ == debug_quoted(s@),
{
    format!("{:?}", s)
}

/// The human-readable message of an error.
pub open spec fn error_message(e: ExporterBuildError) -> Seq<char> {
    match e {
        ExporterBuildError::InvalidUrl { url, message } =>
            "Invalid URL: "@ + message@ + " ("@ + debug_quoted(url@) + ")"@,
        ExporterBuildError::MissingBackend { name } =>
            "Exporter backend "@ + name@ + " does not exist"@,
    }
}

impl ExporterBuildError {
    /// The message of this error: `Invalid URL: {message} ({url:?})` or
    /// `Exporter backend {name} does not exist`.
    pub fn to_message(&self) -> (r: String)
        ensures
            r@ == error_message(*self),
    {
        match self {
            ExporterBuildError::InvalidUrl { url, message } => {
                let mut r = String::from_str("Invalid URL: ");
                r.append(message.as_str());
                r.append(" (");
                let quoted = debug_text(url.as_str());
                r.append(quoted.as_str());
                r.append(")");
                r
            },
            ExporterBuildError::MissingBackend { name } => {
                let mut r = String::from_str("Exporter backend ");
                r.append(name.as_str());
                r.append(" does not exist");
                r
            },
        }
    }
}

} // verus!
