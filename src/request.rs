use vstd::prelude::*;
use crate::error::NewsApiError;

verus! {

/// Root of the versioned API.
pub const BASE_URL: &'static str = "https://newsapi.org/v2";

#[verifier::external_type_specification]
#[verifier::external_body]
pub struct ExUrl(url::Url);

/// The serialization of a parsed URL, which determines it.
pub uninterp spec fn url_text(u: url::Url) -> Seq<char>;

/// The serialization `url` gives a text, if the text is an absolute URL.
pub uninterp spec fn parsed_url(s: Seq<char>) -> Option<Seq<char>>;

/// The serialization of a URL once a path segment is appended.
pub uninterp spec fn with_segment(u: Seq<char>, segment: Seq<char>) -> Seq<char>;

/// The serialization of a URL once its query is replaced.
pub uninterp spec fn with_query(u: Seq<char>, query: Seq<char>) -> Seq<char>;

/// Relies on url::Url::parse: whether it succeeds, and the URL it gives,
/// depend on the text alone.
#[verifier::external_body]
fn parse_url(s: &str) -> (r: Result<url::Url, url::ParseError>)
    ensures
        match r {
            Ok(u) => parsed_url(s@) == Some(url_text(u)),
            Err(_) => parsed_url(s@) is None,
        },
{
    url::Url::parse(s)
}

/// Whether a URL serialization can take path segments: the first `:`, the
/// one ending the scheme, is followed by `/`.
pub open spec fn takes_segments(u: Seq<char>) -> bool {
    exists|i: int|
        0 <= i && i + 1 < u.len() && #[trigger] u[i] == ':' && u[i + 1] == '/' && forall|k: int|
            0 <= k < i ==> u[k] != ':'
}

/// Relies on url::Url::path_segments_mut and PathSegmentsMut::push: appends
/// one percent-encoded segment to the path. Where the URL cannot be a base
/// (`Url::cannot_be_a_base`: no `/` right after the scheme's `:`) it is left
/// as it was and `false` comes back.
#[verifier::external_body]
fn push_segment(u: &mut url::Url, segment: &str) -> (r: bool)
    ensures
        r == takes_segments(url_text(*old(u))),
        r ==> url_text(*final(u)) == with_segment(url_text(*old(u)), segment@),
        !r ==> *final(u) == *old(u),
{
    match u.path_segments_mut() {
        Ok(mut segments) => {
            segments.push(segment);
            true
        },
        Err(()) => false,
    }
}

/// Relies on url::Url::set_query: replaces the query.
#[verifier::external_body]
fn set_query(u: &mut url::Url, query: &str)
    ensures
        url_text(*final(u)) == with_query(url_text(*old(u)), query@),
{
    u.set_query(Some(query))
}

/// Relies on url::Url::as_str: the serialization.
#[verifier::external_body]
fn url_string(u: &url::Url) -> (r: String)
    ensures
        r@ == url_text(*u),
{
    String::from(u.as_str())
}

/// The query that selects a country.
pub open spec fn country_query(c: Country) -> Seq<char> {
    "country="@ + country_code(c)
}

/// A lower-case ASCII letter.
pub open spec fn is_lower_letter(ch: char) -> bool {
    'a' <= ch <= 'z'
}

/// Whether every character of `s` is a lower-case ASCII letter or, where
/// `dash` is set, a `-`: characters that a URL carries as they are.
pub open spec fn plain_word(s: Seq<char>, dash: bool) -> bool {
    forall|i: int| 0 <= i < s.len() ==> is_lower_letter(#[trigger] s[i]) || (dash && s[i] == '-')
}

/// The URL of a request: the base, the endpoint appended as a path segment,
/// and the country as the query.
pub open spec fn request_url(base: Seq<char>, e: Endpoint, c: Country) -> Seq<char> {
    with_query(with_segment(base, endpoint_name(e)), country_query(c))
}

/// The remote resources this client can query.
pub enum Endpoint {
    TopHeadlines,
}

/// The path segment naming an endpoint.
pub open spec fn endpoint_name(e: Endpoint) -> Seq<char> {
    match e {
        Endpoint::TopHeadlines => "top-headlines"@,
    }
}

/// What a request hands to `url`: the endpoint name as the one path segment
/// appended, which holds no `/`, `?` or `#`; and a query of exactly one
/// parameter, `country`, whose value is the two-letter country code, which
/// holds no `&`, `=` or `#`.
pub proof fn lemma_request_parts(e: Endpoint, c: Country)
    ensures
        endpoint_name(e).len() > 0,
        plain_word(endpoint_name(e), true),
        country_query(c) == "country="@ + country_code(c),
        country_code(c).len() == 2,
        plain_word(country_code(c), false),
{
    reveal_strlit("top-headlines");
    reveal_strlit("in");
    reveal_strlit("us");
}

impl Endpoint {
    pub fn to_string(&self) -> (r: String)
        ensures
            r@ == endpoint_name(*self),
    {
        match self {
            Endpoint::TopHeadlines => String::from_str("top-headlines"),
        }
    }
}

/// The countries headlines can be filtered by.
pub enum Country {
    In,
    Us,
}

/// The two-letter code of a country filter.
pub open spec fn country_code(c: Country) -> Seq<char> {
    match c {
        Country::In => "in"@,
        Country::Us => "us"@,
    }
}

impl Country {
    pub fn to_string(&self) -> (r: String)
        ensures
            r@ == country_code(*self),
    {
        match self {
            Country::In => String::from_str("in"),
            Country::Us => String::from_str("us"),
        }
    }
}

/// Client configuration: the API key and what to ask for.
pub struct NewsAPI {
    api_key: String,
    endpoint: Endpoint,
    country: Country,
}

impl NewsAPI {
    pub closed spec fn key(&self) -> Seq<char> {
        self.api_key@
    }

    pub closed spec fn endpoint_of(&self) -> Endpoint {
        self.endpoint
    }

    pub closed spec fn country_of(&self) -> Country {
        self.country
    }

    /// A client for `api_key`, asking for the top headlines of India.
    pub fn new(api_key: &str) -> (r: NewsAPI)
        ensures
            r.key() == api_key@,
            r.endpoint_of() == Endpoint::TopHeadlines,
            r.country_of() == Country::In,
    {
        NewsAPI { api_key: String::from_str(api_key), endpoint: Endpoint::TopHeadlines, country: Country::In }
    }

    /// Presently only the top-headlines endpoint exists.
    pub fn endpoint(&mut self, endpoint: Endpoint) -> (r: &mut NewsAPI)
        ensures
            r.endpoint_of() == endpoint,
            r.key() == old(self).key(),
            r.country_of() == old(self).country_of(),
            *final(self) == *final(r),
    {
        self.endpoint = endpoint;
        self
    }

    /// Sets the country whose headlines are fetched.
    pub fn country(&mut self, country: Country) -> (r: &mut NewsAPI)
        ensures
            r.country_of() == country,
            r.key() == old(self).key(),
            r.endpoint_of() == old(self).endpoint_of(),
            *final(self) == *final(r),
    {
        self.country = country;
        self
    }

    /// The API key sent with each request.
    pub fn api_key(&self) -> (r: &str)
        ensures
            r@ == self.key(),
    {
        self.api_key.as_str()
    }

    /// The URL to fetch: `BASE_URL` with the endpoint as a path segment and
    /// `country=<code>` as the query. It depends on the endpoint and the
    /// country alone.
    pub fn prepare_url(&self) -> (r: Result<String, NewsApiError>)
        ensures
            match parsed_url(BASE_URL@) {
                None => r matches Err(NewsApiError::UrlParsing(_)),
                Some(base) => if takes_segments(base) {
                    r matches Ok(s) && s@ == request_url(base, self.endpoint_of(), self.country_of())
                } else {
                    r matches Err(NewsApiError::UrlCannotBeABase)
                },
            },
    {
        let mut url = match parse_url(BASE_URL) {
            Ok(u) => u,
            Err(e) => return Err(NewsApiError::UrlParsing(e)),
        };
        let segment = self.endpoint.to_string();
        if !push_segment(&mut url, segment.as_str()) {
            return Err(NewsApiError::UrlCannotBeABase);
        }
        let mut query = String::from_str("country=");
        let code = self.country.to_string();
        query.append(code.as_str());
        set_query(&mut url, query.as_str());
        Ok(url_string(&url))
    }
}

} // verus!
