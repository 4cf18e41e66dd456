use newsapi::{
    check_status, decode_article, decode_articles, decode_envelope, map_response_err,
    read_response, Article, Country, Endpoint, NewsAPI, NewsAPIResponse, NewsApiError, BASE_URL,
};

fn reason(e: NewsApiError) -> &'static str {
    match e {
        NewsApiError::BadRequest(m) => m,
        _ => panic!("expected a bad request"),
    }
}

fn ok_response(body: &str) -> NewsAPIResponse {
    match read_response(body) {
        Ok(r) => r,
        Err(_) => panic!("expected an envelope"),
    }
}

fn pairs(articles: &Vec<Article>) -> Vec<(String, String)> {
    articles.iter().map(|a| (a.title().to_string(), a.url().to_string())).collect()
}

fn value(text: &str) -> serde_json::Value {
    serde_json::from_str(text).unwrap()
}

#[test]
fn endpoint_and_country_names() {
    assert_eq!(Endpoint::TopHeadlines.to_string(), "top-headlines");
    assert_eq!(Country::In.to_string(), "in");
    assert_eq!(Country::Us.to_string(), "us");
}

#[test]
fn new_client_defaults() {
    let api = NewsAPI::new("test-key");
    assert_eq!(api.api_key(), "test-key");
    assert_eq!(
        api.prepare_url().ok().unwrap(),
        "https://newsapi.org/v2/top-headlines?country=in"
    );
}

#[test]
fn setters_chain() {
    let mut api = NewsAPI::new("k");
    api.endpoint(Endpoint::TopHeadlines).country(Country::Us);
    assert_eq!(api.api_key(), "k");
    assert_eq!(
        api.prepare_url().ok().unwrap(),
        "https://newsapi.org/v2/top-headlines?country=us"
    );
}

#[test]
fn every_request_url_has_one_endpoint_segment_and_one_country_parameter() {
    for (country, code) in [(Country::In, "in"), (Country::Us, "us")] {
        let mut api = NewsAPI::new("k");
        api.endpoint(Endpoint::TopHeadlines).country(country);
        let text = api.prepare_url().ok().unwrap();
        assert!(text.starts_with(BASE_URL));
        let parsed = url::Url::parse(&text).unwrap();
        let segments: Vec<&str> = parsed.path_segments().unwrap().collect();
        assert_eq!(segments.iter().filter(|s| **s == "top-headlines").count(), 1);
        assert_eq!(segments, vec!["v2", "top-headlines"]);
        assert_eq!(parsed.scheme(), "https");
        assert_eq!(parsed.host_str(), Some("newsapi.org"));
        let query: Vec<(String, String)> = parsed
            .query_pairs()
            .map(|(k, v)| (k.into_owned(), v.into_owned()))
            .collect();
        assert_eq!(query, vec![("country".to_string(), code.to_string())]);
    }
}

#[test]
fn api_key_disabled_reason() {
    let e = map_response_err(Some("apiKeyDisabled".to_string()));
    assert_eq!(reason(e), "Your API Key has been disabled");
}

#[test]
fn unknown_code_reason() {
    assert_eq!(reason(map_response_err(Some("rateLimited".to_string()))), "Unknown error");
    assert_eq!(reason(map_response_err(Some(String::new()))), "Unknown error");
}

#[test]
fn absent_code_reason() {
    assert_eq!(reason(map_response_err(None)), "Unknown error");
}

#[test]
fn ok_body_keeps_articles_in_order() {
    let body = r#"{"status":"ok","totalResults":3,"articles":[
        {"title":"First","url":"http://a/1","author":null},
        {"title":"Second","url":"http://b/2"},
        {"title":"Third é","url":"http://c/3?x=1"}]}"#;
    let r = ok_response(body);
    assert_eq!(
        pairs(r.articles()),
        vec![
            ("First".to_string(), "http://a/1".to_string()),
            ("Second".to_string(), "http://b/2".to_string()),
            ("Third \u{e9}".to_string(), "http://c/3?x=1".to_string()),
        ]
    );
}

#[test]
fn ok_body_round_trips_serialized_articles() {
    let articles = vec![("A b", "http://x/y"), ("\"quoted\"", "https://z")];
    let items: Vec<serde_json::Value> = articles
        .iter()
        .map(|(t, u)| {
            let mut m = serde_json::Map::new();
            m.insert("title".to_string(), serde_json::Value::String(t.to_string()));
            m.insert("url".to_string(), serde_json::Value::String(u.to_string()));
            serde_json::Value::Object(m)
        })
        .collect();
    let mut m = serde_json::Map::new();
    m.insert("status".to_string(), serde_json::Value::String("ok".to_string()));
    m.insert("articles".to_string(), serde_json::Value::Array(items));
    let body = serde_json::to_string(&serde_json::Value::Object(m)).unwrap();
    let r = ok_response(&body);
    let expected: Vec<(String, String)> =
        articles.iter().map(|(t, u)| (t.to_string(), u.to_string())).collect();
    assert_eq!(pairs(r.articles()), expected);
}

#[test]
fn ok_body_with_no_articles_is_empty() {
    let r = ok_response(r#"{"status":"ok","articles":[]}"#);
    assert!(r.articles().is_empty());
}

#[test]
fn error_body_with_disabled_key() {
    let r = read_response(r#"{"status":"error","code":"apiKeyDisabled","articles":[]}"#);
    assert_eq!(reason(r.err().unwrap()), "Your API Key has been disabled");
}

#[test]
fn error_body_with_unknown_code() {
    let r = read_response(r#"{"status":"error","code":"somethingElse","articles":[]}"#);
    assert_eq!(reason(r.err().unwrap()), "Unknown error");
}

#[test]
fn error_body_with_absent_or_null_code() {
    let r = read_response(r#"{"status":"error","articles":[]}"#);
    assert_eq!(reason(r.err().unwrap()), "Unknown error");
    let r = read_response(r#"{"status":"error","code":null,"articles":[]}"#);
    assert_eq!(reason(r.err().unwrap()), "Unknown error");
}

#[test]
fn status_other_than_ok_is_an_error() {
    let r = read_response(r#"{"status":"OK","articles":[{"title":"t","url":"u"}]}"#);
    assert_eq!(reason(r.err().unwrap()), "Unknown error");
}

#[test]
fn body_that_is_not_json_fails_to_parse() {
    let r = read_response("{\"status\": \"ok\", ");
    assert!(matches!(r, Err(NewsApiError::ArticlesParsingFailed(Some(_)))));
    let r = read_response("");
    assert!(matches!(r, Err(NewsApiError::ArticlesParsingFailed(Some(_)))));
}

#[test]
fn body_without_status_fails_to_parse() {
    let r = read_response(r#"{"articles":[]}"#);
    assert!(matches!(r, Err(NewsApiError::ArticlesParsingFailed(None))));
}

#[test]
fn body_of_another_shape_fails_to_parse() {
    for body in [
        r#"{"status":"ok"}"#,
        r#"{"status":1,"articles":[]}"#,
        r#"{"status":"ok","articles":{}}"#,
        r#"{"status":"ok","articles":[{"title":"t"}]}"#,
        r#"{"status":"ok","articles":[{"title":"t","url":3}]}"#,
        r#"{"status":"error","code":7,"articles":[]}"#,
        r#"[1,2]"#,
    ] {
        let r = read_response(body);
        assert!(matches!(r, Err(NewsApiError::ArticlesParsingFailed(None))), "{}", body);
    }
}

#[test]
fn fixture_server_answer() {
    let mut api = NewsAPI::new("test-key");
    api.endpoint(Endpoint::TopHeadlines).country(Country::Us);
    assert!(api.prepare_url().ok().unwrap().ends_with("/top-headlines?country=us"));
    assert_eq!(api.api_key(), "test-key");
    let r = ok_response(r#"{"status":"ok","articles":[{"title":"A","url":"http://x"}]}"#);
    assert_eq!(pairs(r.articles()), vec![("A".to_string(), "http://x".to_string())]);
}

#[test]
fn decode_single_article() {
    let a = decode_article(&value(r#"{"url":"http://u","title":"T","extra":[1]}"#)).unwrap();
    assert_eq!(a.title(), "T");
    assert_eq!(a.url(), "http://u");
    assert!(decode_article(&value(r#"{"title":"T"}"#)).is_none());
    assert!(decode_article(&value(r#""T""#)).is_none());
}

#[test]
fn decode_article_list() {
    let v = value(r#"[{"title":"a","url":"b"},{"title":"c","url":"d"}]"#);
    let got = decode_articles(v.as_array().unwrap()).unwrap();
    assert_eq!(
        pairs(&got),
        vec![("a".to_string(), "b".to_string()), ("c".to_string(), "d".to_string())]
    );
    let v = value(r#"[{"title":"a","url":"b"},{"title":"c"}]"#);
    assert!(decode_articles(v.as_array().unwrap()).is_none());
}

#[test]
fn decode_and_check_envelope() {
    let env = decode_envelope(&value(r#"{"status":"ok","articles":[],"code":null}"#)).unwrap();
    assert!(check_status(env).is_ok());
    let env = decode_envelope(&value(r#"{"status":"error","articles":[],"code":"apiKeyDisabled"}"#))
        .unwrap();
    assert_eq!(reason(check_status(env).err().unwrap()), "Your API Key has been disabled");
    assert!(decode_envelope(&value(r#"{"status":"ok","articles":[],"code":false}"#)).is_none());
}

#[test]
fn url_ignores_setter_order_and_api_key() {
    let mut x = NewsAPI::new("first-key");
    x.endpoint(Endpoint::TopHeadlines).country(Country::Us);
    let mut y = NewsAPI::new("second-key");
    y.country(Country::Us).endpoint(Endpoint::TopHeadlines);
    assert_eq!(x.prepare_url().ok().unwrap(), y.prepare_url().ok().unwrap());
}

#[test]
fn last_country_set_wins() {
    let mut x = NewsAPI::new("k");
    x.country(Country::Us).country(Country::In);
    assert_eq!(
        x.prepare_url().ok().unwrap(),
        "https://newsapi.org/v2/top-headlines?country=in"
    );
    let mut y = NewsAPI::new("k");
    y.country(Country::In).country(Country::Us);
    assert_eq!(
        y.prepare_url().ok().unwrap(),
        "https://newsapi.org/v2/top-headlines?country=us"
    );
}
