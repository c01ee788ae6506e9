use news_observer::news_fetcher::{Article, Articles, Country, FetchError};
use news_observer::news_gui::{card_description, ApplicationConfig, NewsObserverApp};

fn config(key: &str, country: Country) -> ApplicationConfig {
    ApplicationConfig { dark_theme: true, api_key: key.to_string(), country }
}

fn list(titles: &[&str]) -> Articles {
    Articles {
        articles: titles
            .iter()
            .map(|t| Article {
                title: t.to_string(),
                url: format!("http://{}", t),
                description: None,
            })
            .collect(),
    }
}

fn titles(app: &NewsObserverApp) -> Vec<String> {
    app.articles().iter().map(|a| a.title.clone()).collect()
}

#[test]
fn default_config() {
    let c = ApplicationConfig::default();
    assert!(c.dark_theme);
    assert!(c.api_key.is_empty());
    assert_eq!(c.country, Country::US);
}

#[test]
fn new_app_opens_settings_without_key() {
    let app = NewsObserverApp::new(ApplicationConfig::default());
    assert!(app.show_config_window());
    assert!(app.articles().is_empty());
    assert!(!app.is_fetching());
    let app = NewsObserverApp::new(config("k", Country::US));
    assert!(!app.show_config_window());
}

#[test]
fn fetch_then_receive_swaps_in() {
    let mut app = NewsObserverApp::new(config("k", Country::US));
    let t = app.fetch_news();
    assert_eq!(t.generation, 1);
    assert_eq!(t.url, "https://newsapi.org/v2/top-headlines?country=us&apiKey=k");
    assert!(app.is_fetching());
    assert!(app.receive(t.generation, Ok(list(&["a", "b"]))));
    assert_eq!(titles(&app), vec!["a", "b"]);
    assert!(!app.is_fetching());
}

#[test]
fn second_poll_after_drain_changes_nothing() {
    let mut app = NewsObserverApp::new(config("k", Country::US));
    let t = app.fetch_news();
    assert!(app.receive(t.generation, Ok(list(&["a"]))));
    assert!(!app.receive(t.generation, Ok(list(&["z"]))));
    assert!(!app.receive(t.generation, Err(FetchError::TransportFailure)));
    assert_eq!(titles(&app), vec!["a"]);
}

#[test]
fn newest_fetch_wins_when_old_arrives_last() {
    let mut app = NewsObserverApp::new(config("k", Country::US));
    let a = app.fetch_news();
    let b = app.fetch_news();
    assert!(app.receive(b.generation, Ok(list(&["b"]))));
    assert!(!app.receive(a.generation, Ok(list(&["a"]))));
    assert_eq!(titles(&app), vec!["b"]);
}

#[test]
fn newest_fetch_wins_when_old_arrives_first() {
    let mut app = NewsObserverApp::new(config("k", Country::US));
    let a = app.fetch_news();
    let b = app.fetch_news();
    assert!(!app.receive(a.generation, Ok(list(&["a"]))));
    assert_eq!(titles(&app), Vec::<String>::new());
    assert!(app.receive(b.generation, Ok(list(&["b"]))));
    assert_eq!(titles(&app), vec!["b"]);
}

#[test]
fn failure_or_empty_keeps_displayed_list() {
    let mut app = NewsObserverApp::new(config("k", Country::US));
    let t = app.fetch_news();
    app.receive(t.generation, Ok(list(&["a"])));
    let t = app.fetch_news();
    assert!(app.receive(t.generation, Err(FetchError::DecodeFailure)));
    assert_eq!(titles(&app), vec!["a"]);
    let t = app.fetch_news();
    assert!(app.receive(t.generation, Ok(list(&[]))));
    assert_eq!(titles(&app), vec!["a"]);
}

#[test]
fn toggle_country_changes_only_country_of_next_fetch() {
    let mut app = NewsObserverApp::new(config("k", Country::US));
    let t = app.fetch_news();
    app.receive(t.generation, Ok(list(&["us news"])));
    let before = app.fetch_news().url;
    let t = app.toggle_country();
    assert_eq!(app.config().country, Country::RU);
    assert_eq!(before, "https://newsapi.org/v2/top-headlines?country=us&apiKey=k");
    assert_eq!(t.url, "https://newsapi.org/v2/top-headlines?country=ru&apiKey=k");
    assert_eq!(titles(&app), vec!["us news"]);
    assert!(app.receive(t.generation, Ok(list(&["ru news"]))));
    assert_eq!(titles(&app), vec!["ru news"]);
    let t = app.toggle_country();
    assert_eq!(app.config().country, Country::US);
    assert_eq!(t.url, before);
}

#[test]
fn theme_and_settings_window_toggle() {
    let mut app = NewsObserverApp::new(config("k", Country::US));
    app.toggle_theme();
    assert!(!app.config().dark_theme);
    app.toggle_theme();
    assert!(app.config().dark_theme);
    app.toggle_config_window();
    assert!(app.show_config_window());
}

#[test]
fn confirm_key_closes_settings_and_fetches() {
    let mut app = NewsObserverApp::new(ApplicationConfig::default());
    let t = app.confirm_api_key("secretkey".to_string());
    assert!(!app.show_config_window());
    assert_eq!(app.config().api_key, "secretkey");
    assert_eq!(t.url, "https://newsapi.org/v2/top-headlines?country=us&apiKey=secretkey");
    assert!(app.is_fetching());
}

#[test]
fn card_description_falls_back_to_ellipsis() {
    let mut a = Article { title: "t".to_string(), url: "u".to_string(), description: None };
    assert_eq!(card_description(&a), "...");
    a.description = Some("text".to_string());
    assert_eq!(card_description(&a), "text");
}

#[test]
fn stale_outcome_ignored_when_newest_fails() {
    let mut app = NewsObserverApp::new(config("k", Country::US));
    let t = app.fetch_news();
    app.receive(t.generation, Ok(list(&["shown"])));
    let a = app.fetch_news();
    let b = app.fetch_news();
    assert!(app.receive(b.generation, Err(FetchError::TransportFailure)));
    assert!(!app.receive(a.generation, Ok(list(&["stale"]))));
    assert_eq!(titles(&app), vec!["shown"]);
}
