use std::str::FromStr;

use fastly::http::Url;
use vstd::prelude::*;

use crate::error::ExporterBuildError;

verus! {

/// What parsing `input` as an absolute URL gives: the URL's serialization when
/// it parses, the parse error's message when it does not.
pub uninterp spec fn url_parse_outcome(input: Seq<char>) -> Result<Seq<char>, Seq<char>>;

/// Calls `fastly::http::Url::from_str` (the `url` crate's parser).
/// Claimed: the outcome depends on `input` alone; on success the result is the
/// parsed URL's serialization (`String::from(url)`), on failure the parse
/// error's `Display` text; both are named by `url_parse_outcome(input@)`.
#[verifier::external_body]
pub(crate) fn parse_url(input: &str) -> (r: Result<String, String>)
    ensures
        match r {
            Ok(href) => url_parse_outcome(input@) == Ok::<Seq<char>, Seq<char>>(href@),
            Err(message) => url_parse_outcome(input@) == Err::<Seq<char>, Seq<char>>(message@),
        },
{
    match Url::from_str(input) {
        Ok(url) => Ok(url.into()),
        Err(error) => Err(error.to_string()),
    }
}

/// Turns the outcome of parsing `text` into the result of building an
/// endpoint URL: the parsed URL, or an `InvalidUrl` error that carries `text`
/// and the parser's message.
pub fn url_or_error(text: String, parsed: Result<String, String>) -> (r: Result<
    String,
    ExporterBuildError,
>)
    ensures
        match parsed {
            Ok(href) => r matches Ok(u) && u@ == href@,
            Err(m) => r matches Err(ExporterBuildError::InvalidUrl { url, message }) && url@
                == text@ && message@ == m@,
        },
{
    match parsed {
        Ok(href) => Ok(href),
        Err(message) => Err(ExporterBuildError::InvalidUrl { url: text, message }),
    }
}

} // verus!
