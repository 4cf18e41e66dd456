use vstd::prelude::*;
use crate::error::{bad_request_reason, map_response_err, opt_text, NewsApiError};
use crate::json::{json_member, json_model, parse_json, parsed_json, Json};

verus! {

/// A headline: its title and the address of the full story.
pub struct Article {
    title: String,
    url: String,
}

pub ghost struct ArticleView {
    pub title: Seq<char>,
    pub url: Seq<char>,
}

impl View for Article {
    type V = ArticleView;

    closed spec fn view(&self) -> ArticleView {
        ArticleView { title: self.title@, url: self.url@ }
    }
}

impl Article {
    pub fn title(&self) -> (r: &str)
        ensures
            r@ == self@.title,
    {
        self.title.as_str()
    }

    pub fn url(&self) -> (r: &str)
        ensures
            r@ == self@.url,
    {
        self.url.as_str()
    }
}

/// The envelope the API wraps its answer in.
pub struct NewsAPIResponse {
    status: String,
    articles: Vec<Article>,
    code: Option<String>,
}

pub ghost struct ResponseView {
    pub status: Seq<char>,
    pub articles: Seq<ArticleView>,
    pub code: Option<Seq<char>>,
}

/// The views of a sequence of articles.
pub open spec fn article_views(a: Seq<Article>) -> Seq<ArticleView> {
    a.map_values(|x: Article| x@)
}

impl View for NewsAPIResponse {
    type V = ResponseView;

    closed spec fn view(&self) -> ResponseView {
        ResponseView {
            status: self.status@,
            articles: article_views(self.articles@),
            code: opt_text(self.code),
        }
    }
}

impl NewsAPIResponse {
    pub fn articles(&self) -> (r: &Vec<Article>)
        ensures
            article_views(r@) == self@.articles,
    {
        &self.articles
    }
}

/// The member of a JSON object under `key`, if there is one.
pub open spec fn member(j: Json, key: Seq<char>) -> Option<Json> {
    match j {
        Json::Object(m) => if m.contains_key(key) {
            Some(m[key])
        } else {
            None
        },
        _ => None,
    }
}

/// An article decoded from JSON: an object with string members `title` and
/// `url`; other members are ignored.
pub open spec fn article_of(j: Json) -> Option<ArticleView> {
    match (member(j, "title"@), member(j, "url"@)) {
        (Some(Json::Str(t)), Some(Json::Str(u))) => Some(ArticleView { title: t, url: u }),
        _ => None,
    }
}

/// The articles decoded from the elements of a JSON array, in order, if
/// every element is an article.
pub open spec fn articles_of(items: Seq<Json>) -> Option<Seq<ArticleView>> {
    if forall|i: int| 0 <= i < items.len() ==> (#[trigger] article_of(items[i])) is Some {
        Some(Seq::new(items.len(), |i: int| article_of(items[i])->0))
    } else {
        None
    }
}

/// The optional error code of an envelope: absent or `null` gives no code;
/// any other non-string value does not decode.
pub open spec fn code_of(j: Json) -> Option<Option<Seq<char>>> {
    match member(j, "code"@) {
        None => Some(None),
        Some(Json::Null) => Some(None),
        Some(Json::Str(c)) => Some(Some(c)),
        _ => None,
    }
}

/// The response envelope decoded from JSON: an object with a string
/// `status`, an array `articles` of articles and an optional string `code`.
/// Other members are ignored.
pub open spec fn envelope_of(j: Json) -> Option<ResponseView> {
    match (member(j, "status"@), member(j, "articles"@), code_of(j)) {
        (Some(Json::Str(s)), Some(Json::Array(items)), Some(c)) => match articles_of(items) {
            Some(a) => Some(ResponseView { status: s, articles: a, code: c }),
            None => None,
        },
        _ => None,
    }
}

fn member_text(v: &serde_json::Value, key: &str) -> (r: Option<String>)
    ensures
        match member(json_model(*v), key@) {
            Some(Json::Str(s)) => r is Some && r->0@ == s,
            _ => r is None,
        },
{
    match json_member(v, key) {
        Some(m) => match m.as_str() {
            Some(s) => Some(String::from_str(s)),
            None => None,
        },
        None => None,
    }
}

/// Decodes one article from a JSON value.
pub fn decode_article(v: &serde_json::Value) -> (r: Option<Article>)
    ensures
        match article_of(json_model(*v)) {
            Some(a) => r is Some && r->0@ == a,
            None => r is None,
        },
{
    let title = member_text(v, "title");
    let url = member_text(v, "url");
    match (title, url) {
        (Some(title), Some(url)) => Some(Article { title, url }),
        _ => None,
    }
}

/// Decodes the elements of a JSON array as articles, keeping their order.
pub fn decode_articles(items: &Vec<serde_json::Value>) -> (r: Option<Vec<Article>>)
    ensures
        match articles_of(items@.map_values(|x: serde_json::Value| json_model(x))) {
            Some(a) => r is Some && article_views(r->0@) == a,
            None => r is None,
        },
{
    let ghost models = items@.map_values(|x: serde_json::Value| json_model(x));
    let mut out: Vec<Article> = Vec::new();
    let mut i: usize = 0;
    while i < items.len()
        invariant
            i <= items@.len(),
            models == items@.map_values(|x: serde_json::Value| json_model(x)),
            out@.len() == i,
            forall|k: int| 0 <= k < i ==> (#[trigger] article_of(models[k])) is Some,
            forall|k: int| 0 <= k < i ==> (#[trigger] out@[k])@ == article_of(models[k])->0,
        decreases items@.len() - i,
    {
        match decode_article(&items[i]) {
            Some(a) => out.push(a),
            None => {
                assert(article_of(models[i as int]) is None);
                return None;
            },
        }
        i = i + 1;
    }
    assert(article_views(out@) =~= Seq::new(models.len(), |k: int| article_of(models[k])->0));
    Some(out)
}

/// Decodes a response envelope from a JSON value.
pub fn decode_envelope(v: &serde_json::Value) -> (r: Option<NewsAPIResponse>)
    ensures
        match envelope_of(json_model(*v)) {
            Some(e) => r is Some && r->0@ == e,
            None => r is None,
        },
{
    let status = match member_text(v, "status") {
        Some(s) => s,
        None => return None,
    };
    let items = match json_member(v, "articles") {
        Some(a) => match a.as_array() {
            Some(items) => items,
            None => return None,
        },
        None => return None,
    };
    let code = match json_member(v, "code") {
        None => None,
        Some(c) => if c.is_null() {
            None
        } else {
            match c.as_str() {
                Some(s) => Some(String::from_str(s)),
                None => return None,
            }
        },
    };
    proof {
        assert(items@.map_values(|x: serde_json::Value| json_model(x)) =~= match member(
            json_model(*v),
            "articles"@,
        ) {
            Some(Json::Array(m)) => m,
            _ => Seq::empty(),
        });
    }
    match decode_articles(items) {
        Some(articles) => Some(NewsAPIResponse { status, articles, code }),
        None => None,
    }
}

/// Accepts an envelope whose status is "ok"; any other status becomes the
/// error its code names.
pub fn check_status(response: NewsAPIResponse) -> (r: Result<NewsAPIResponse, NewsApiError>)
    ensures
        response@.status == "ok"@ ==> (r matches Ok(x) && x@ == response@),
        response@.status != "ok"@ ==> (r matches Err(NewsApiError::BadRequest(m)) && m@
            == bad_request_reason(response@.code)),
{
    let ok = String::from_str("ok");
    if response.status == ok {
        Ok(response)
    } else {
        Err(map_response_err(response.code))
    }
}

/// What reading a response body gives: the envelope when the body decodes
/// and its status is "ok".
pub open spec fn response_outcome(body: Seq<char>, r: Result<NewsAPIResponse, NewsApiError>) -> bool {
    match parsed_json(body) {
        None => r matches Err(NewsApiError::ArticlesParsingFailed(Some(_))),
        Some(j) => match envelope_of(j) {
            None => r matches Err(NewsApiError::ArticlesParsingFailed(None)),
            Some(e) => if e.status == "ok"@ {
                r matches Ok(x) && x@ == e
            } else {
                r matches Err(NewsApiError::BadRequest(m)) && m@ == bad_request_reason(e.code)
            },
        },
    }
}

/// Decodes a response body and checks its status.
pub fn read_response(body: &str) -> (r: Result<NewsAPIResponse, NewsApiError>)
    ensures
        response_outcome(body@, r),
{
    let v = match parse_json(body) {
        Ok(v) => v,
        Err(e) => return Err(NewsApiError::ArticlesParsingFailed(Some(e))),
    };
    match decode_envelope(&v) {
        Some(response) => check_status(response),
        None => Err(NewsApiError::ArticlesParsingFailed(None)),
    }
}

/// The JSON object an article is written as.
pub open spec fn article_json(a: ArticleView) -> Json {
    Json::Object(map!["title"@ => Json::Str(a.title), "url"@ => Json::Str(a.url)])
}

/// The JSON object an envelope is written as; without a code the `code`
/// member is left out.
pub open spec fn envelope_json(e: ResponseView) -> Json {
    let m = map![
        "status"@ => Json::Str(e.status),
        "articles"@ => Json::Array(e.articles.map_values(|a: ArticleView| article_json(a))),
    ];
    Json::Object(
        match e.code {
            Some(c) => m.insert("code"@, Json::Str(c)),
            None => m,
        },
    )
}

/// Decoding the JSON form of an envelope gives the envelope back: the same
/// status and code, and the same articles in the same order, title and url
/// unchanged.
pub proof fn lemma_envelope_round_trip(e: ResponseView)
    ensures
        envelope_of(envelope_json(e)) == Some(e),
{
    reveal_strlit("title");
    reveal_strlit("url");
    reveal_strlit("status");
    reveal_strlit("articles");
    reveal_strlit("code");
    assert("title"@.len() != "url"@.len());
    assert("status"@.len() != "articles"@.len());
    assert("code"@.len() != "articles"@.len());
    assert("code"@.len() != "status"@.len());
    let items = e.articles.map_values(|a: ArticleView| article_json(a));
    assert forall|i: int| 0 <= i < items.len() implies #[trigger] article_of(items[i]) == Some(
        e.articles[i],
    ) by {
        assert(items[i] == article_json(e.articles[i]));
        assert(member(items[i], "title"@) == Some(Json::Str(e.articles[i].title)));
        assert(member(items[i], "url"@) == Some(Json::Str(e.articles[i].url)));
    }
    assert(articles_of(items) is Some);
    assert(articles_of(items)->0 =~= e.articles);
    assert(member(envelope_json(e), "articles"@) == Some(Json::Array(items)));
    assert(member(envelope_json(e), "status"@) == Some(Json::Str(e.status)));
    assert(code_of(envelope_json(e)) == Some(e.code));
}

/// An envelope whose status is "ok" and which holds no article decodes to an
/// empty list of articles, not to an error.
pub proof fn lemma_empty_ok_envelope(j: Json)
    requires
        member(j, "status"@) == Some(Json::Str("ok"@)),
        member(j, "articles"@) == Some(Json::Array(Seq::<Json>::empty())),
        code_of(j) is Some,
    ensures
        envelope_of(j) matches Some(e) && e.status == "ok"@ && e.articles.len() == 0,
{
}

/// JSON without a string `status` member, or without an `articles` array,
/// is not an envelope: reading it fails with a parsing error.
pub proof fn lemma_shapeless_body_fails(body: Seq<char>, j: Json, r: Result<
    NewsAPIResponse,
    NewsApiError,
>)
    requires
        parsed_json(body) == Some(j),
        !(member(j, "status"@) matches Some(Json::Str(_))) || !(member(j, "articles"@) matches Some(
            Json::Array(_),
        )),
        response_outcome(body, r),
    ensures
        r matches Err(NewsApiError::ArticlesParsingFailed(None)),
{
}

} // verus!
