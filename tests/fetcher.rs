use news_observer::news_fetcher::{
    articles_from_response, decode_articles, resolve_country, search_in_country_url, search_url,
    top_headlines_url, Country, FetchError,
};

#[test]
fn country_codes() {
    assert_eq!(resolve_country(&Country::US), "us");
    assert_eq!(resolve_country(&Country::RU), "ru");
}

#[test]
fn top_headlines_url_exact() {
    assert_eq!(
        top_headlines_url("KEY123", &Country::US),
        "https://newsapi.org/v2/top-headlines?country=us&apiKey=KEY123"
    );
    assert_eq!(
        top_headlines_url("abc", &Country::RU),
        "https://newsapi.org/v2/top-headlines?country=ru&apiKey=abc"
    );
}

#[test]
fn top_headlines_url_has_one_country_and_no_query() {
    let url = top_headlines_url("k", &Country::RU);
    let query = url.split_once('?').unwrap().1;
    let params: Vec<&str> = query.split('&').collect();
    let countries: Vec<&&str> = params.iter().filter(|p| p.starts_with("country=")).collect();
    assert_eq!(countries.len(), 1);
    assert_eq!(*countries[0], "country=ru");
    assert!(params.iter().all(|p| !p.starts_with("q=")));
}

#[test]
fn search_url_exact() {
    assert_eq!(
        search_url("K", "rust"),
        "https://newsapi.org/v2/everything?q=\"rust\"&sortBy=popularity&apiKey=K"
    );
}

#[test]
fn search_in_country_url_exact() {
    assert_eq!(
        search_in_country_url("K", "rust", &Country::US),
        "https://newsapi.org/v2/everything?q=\"rust\"&country=us&sortBy=popularity&apiKey=K"
    );
}

#[test]
fn search_url_params() {
    let plain = search_url("K", "space");
    assert!(plain.contains("q=\"space\""));
    assert!(plain.contains("sortBy=popularity"));
    assert!(!plain.contains("country="));
    let local = search_in_country_url("K", "space", &Country::RU);
    assert!(local.contains("q=\"space\""));
    assert!(local.contains("sortBy=popularity"));
    assert!(local.contains("country=ru"));
}

#[test]
fn decode_single_article_with_null_description() {
    let body = r#"{"articles":[{"title":"A","url":"http://x","description":null}]}"#;
    let a = decode_articles(body).unwrap();
    assert_eq!(a.articles.len(), 1);
    assert_eq!(a.articles[0].title, "A");
    assert_eq!(a.articles[0].url, "http://x");
    assert!(a.articles[0].description.is_none());
}

#[test]
fn decode_keeps_order_and_ignores_extra_fields() {
    let body = r#"{"status":"ok","totalResults":2,"articles":[
        {"source":{"id":null},"title":"First","url":"http://a","description":"one","author":"x"},
        {"title":"Second","url":"http://b"}]}"#;
    let a = decode_articles(body).unwrap();
    assert_eq!(a.articles.len(), 2);
    assert_eq!(a.articles[0].title, "First");
    assert_eq!(a.articles[0].description.as_deref(), Some("one"));
    assert_eq!(a.articles[1].title, "Second");
    assert_eq!(a.articles[1].url, "http://b");
    assert!(a.articles[1].description.is_none());
}

#[test]
fn decode_empty_list() {
    let a = decode_articles(r#"{"articles":[]}"#).unwrap();
    assert!(a.articles.is_empty());
}

#[test]
fn decode_rejects_non_json() {
    assert_eq!(decode_articles("<html>502</html>").unwrap_err(), FetchError::DecodeFailure);
    assert_eq!(decode_articles("").unwrap_err(), FetchError::DecodeFailure);
}

#[test]
fn decode_rejects_wrong_shape() {
    for body in [
        r#"{"status":"error","code":"apiKeyInvalid"}"#,
        r#"{"articles":{}}"#,
        r#"[1,2]"#,
        r#"{"articles":[{"url":"http://x"}]}"#,
        r#"{"articles":[{"title":"A","url":7}]}"#,
        r#"{"articles":[{"title":"A","url":"u","description":3}]}"#,
        r#"{"articles":[{"title":"A","url":"u"},"x"]}"#,
    ] {
        assert_eq!(decode_articles(body).unwrap_err(), FetchError::DecodeFailure, "{}", body);
    }
}

#[test]
fn response_transport_failure() {
    assert_eq!(articles_from_response(None).unwrap_err(), FetchError::TransportFailure);
}

#[test]
fn response_decode_failure() {
    assert_eq!(articles_from_response(Some("not json")).unwrap_err(), FetchError::DecodeFailure);
}

#[test]
fn response_success() {
    let body = r#"{"articles":[{"title":"T","url":"http://t","description":"d"}]}"#;
    let a = articles_from_response(Some(body)).unwrap();
    assert_eq!(a.articles.len(), 1);
    assert_eq!(a.articles[0].description.as_deref(), Some("d"));
}
