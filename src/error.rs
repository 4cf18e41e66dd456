use vstd::prelude::*;

verus! {

#[verifier::external_type_specification]
#[verifier::external_body]
pub struct ExTransportError(ureq::Error);

#[verifier::external_type_specification]
#[verifier::external_body]
pub struct ExIoError(std::io::Error);

#[verifier::external_type_specification]
#[verifier::external_body]
pub struct ExUrlParseError(url::ParseError);

/// Everything that can go wrong while fetching headlines.
pub enum NewsApiError {
    /// The HTTP request itself failed.
    RequestFailed(ureq::Error),
    /// The response body could not be read as text.
    FailedResponseToString(std::io::Error),
    /// The body is not JSON (`Some`, with the parser's error), or is JSON of
    /// another shape than the response envelope (`None`).
    ArticlesParsingFailed(Option<serde_json::Error>),
    /// The base URL does not parse.
    UrlParsing(url::ParseError),
    /// The base URL parses but cannot take path segments.
    UrlCannotBeABase,
    /// The API answered with a status other than "ok".
    BadRequest(&'static str),
}

/// The text of an optional string.
pub open spec fn opt_text(o: Option<String>) -> Option<Seq<char>> {
    match o {
        Some(s) => Some(s@),
        None => None,
    }
}

/// The reason reported for a failed request, from the API's error code.
pub open spec fn bad_request_reason(code: Option<Seq<char>>) -> Seq<char> {
    if code == Some("apiKeyDisabled"@) {
        "Your API Key has been disabled"@
    } else {
        "Unknown error"@
    }
}

/// The error for a response whose status is not "ok", from its error code.
pub fn map_response_err(code: Option<String>) -> (r: NewsApiError)
    ensures
        r matches NewsApiError::BadRequest(m) && m@ == bad_request_reason(opt_text(code)),
{
    match code {
        Some(c) => {
            let disabled = String::from_str("apiKeyDisabled");
            if c == disabled {
                NewsApiError::BadRequest("Your API Key has been disabled")
            } else {
                NewsApiError::BadRequest("Unknown error")
            }
        },
        None => NewsApiError::BadRequest("Unknown error"),
    }
}

} // verus!
