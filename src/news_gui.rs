//! The state behind the news window: the displayed articles, the settings,
//! and the fetch-and-swap discipline that keeps only the newest fetch's
//! answer.
//!
//! Every fetch is minted a generation number. The host carries the fetch out
//! and delivers its outcome together with that number; an outcome whose
//! number is not the one outstanding is ignored, so an abandoned fetch can
//! never overwrite the answer of a newer one.
use vstd::prelude::*;

use crate::news_fetcher::{
    country_code, headline_params, request_url, top_headlines_url, Article, ArticleView, Articles, Country,
    FetchError, NEWS_API_TOP_HEADLINES,
};

verus! {

/// The settings that are kept between runs.
#[derive(Clone, Debug)]
pub struct ApplicationConfig {
    pub dark_theme: bool,
    pub api_key: String,
    pub country: Country,
}

impl Default for ApplicationConfig {
    fn default() -> (r: Self)
        ensures
            r.dark_theme,
            r.api_key@ == Seq::<char>::empty(),
            r.country == Country::US,
    {
        ApplicationConfig { dark_theme: true, api_key: String::new(), country: Country::US }
    }
}

/// A fetch for the host to carry out: the URL to ask, and the generation
/// under which its outcome is to be delivered.
#[derive(Clone, Debug)]
pub struct FetchTicket {
    pub generation: u64,
    pub url: String,
}

/// The state of the window as a value.
pub struct AppView {
    pub articles: Seq<ArticleView>,
    pub dark_theme: bool,
    pub api_key: Seq<char>,
    pub country: Country,
    pub show_config_window: bool,
    /// The generation of the latest fetch started; 0 before the first.
    pub generation: nat,
    /// The generation of the fetch whose outcome is awaited, if any.
    pub pending: Option<nat>,
}

/// The window's state.
pub struct NewsObserverApp {
    articles: Vec<Article>,
    config: ApplicationConfig,
    show_config_window: bool,
    generation: u64,
    pending: Option<u64>,
}

impl View for NewsObserverApp {
    type V = AppView;

    closed spec fn view(&self) -> AppView {
        AppView {
            articles: self.articles@.map_values(|a: Article| a@),
            dark_theme: self.config.dark_theme,
            api_key: self.config.api_key@,
            country: self.config.country,
            show_config_window: self.show_config_window,
            generation: self.generation as nat,
            pending: match self.pending {
                Some(g) => Some(g as nat),
                None => None,
            },
        }
    }
}

/// The other country of the two.
pub open spec fn other_country(c: Country) -> Country {
    match c {
        Country::US => Country::RU,
        Country::RU => Country::US,
    }
}

/// What an outcome brings: the articles of a successful fetch, or nothing.
pub open spec fn outcome_view(outcome: Result<Articles, FetchError>) -> Option<Seq<ArticleView>> {
    match outcome {
        Ok(a) => Some(a@),
        Err(_) => None,
    }
}

/// The state after a new fetch is started: it gets the next generation and
/// is the one outstanding, in place of any earlier one.
pub open spec fn started(v: AppView) -> AppView {
    AppView { generation: v.generation + 1, pending: Some(v.generation + 1), ..v }
}

/// The state after the outcome of the fetch of generation `g` is delivered.
/// Only the outstanding fetch is heard; a non-empty list of articles
/// replaces the displayed one, and a failure or an empty list leaves it.
pub open spec fn delivered(v: AppView, g: nat, outcome: Option<Seq<ArticleView>>) -> AppView {
    if v.pending == Some(g) {
        AppView {
            articles: if outcome is Some && outcome->0.len() > 0 {
                outcome->0
            } else {
                v.articles
            },
            pending: None,
            ..v
        }
    } else {
        v
    }
}

/// The URL that a fetch started in state `v` asks.
pub open spec fn fetch_url(v: AppView) -> Seq<char> {
    request_url(NEWS_API_TOP_HEADLINES@, headline_params(v.api_key, v.country))
}

/// The text shown under an article's title: its description, or `...`.
pub open spec fn card_description_text(a: ArticleView) -> Seq<char> {
    match a.description {
        Some(d) => d,
        None => "..."@,
    }
}

impl NewsObserverApp {
    /// A window with nothing displayed and no fetch outstanding; the
    /// settings window is open exactly when no API key is set.
    pub fn new(config: ApplicationConfig) -> (r: Self)
        ensures
            r@.articles == Seq::<ArticleView>::empty(),
            r@.dark_theme == config.dark_theme,
            r@.api_key == config.api_key@,
            r@.country == config.country,
            r@.show_config_window == (config.api_key@.len() == 0),
            r@.generation == 0,
            r@.pending is None,
    {
        let show = config.api_key.as_str().is_empty();
        let r = NewsObserverApp {
            articles: Vec::new(),
            config,
            show_config_window: show,
            generation: 0,
            pending: None,
        };
        assert(r@.articles =~= Seq::<ArticleView>::empty());
        r
    }

    /// Starts a fetch of the top headlines for the configured key and
    /// country. It replaces any fetch outstanding; the displayed articles
    /// stay until its outcome arrives.
    pub fn fetch_news(&mut self) -> (t: FetchTicket)
        requires
            old(self)@.generation < u64::MAX,
        ensures
            final(self)@ == started(old(self)@),
            t.generation == final(self)@.generation,
            t.url@ == fetch_url(old(self)@),
    {
        let g: u64 = self.generation + 1;
        let url = top_headlines_url(self.config.api_key.as_str(), &self.config.country);
        self.generation = g;
        self.pending = Some(g);
        FetchTicket { generation: g, url }
    }

    /// Hands over the outcome of the fetch of generation `generation`.
    /// Returns whether it was taken: it is exactly when that fetch is the
    /// one outstanding, which it then no longer is.
    pub fn receive(&mut self, generation: u64, outcome: Result<Articles, FetchError>) -> (taken:
        bool)
        ensures
            final(self)@ == delivered(old(self)@, generation as nat, outcome_view(outcome)),
            taken == (old(self)@.pending == Some(generation as nat)),
    {
        if self.pending != Some(generation) {
            return false;
        }
        self.pending = None;
        match outcome {
            Ok(a) => {
                if a.articles.len() > 0 {
                    self.articles = a.articles;
                }
            },
            Err(_) => {},
        }
        true
    }

    /// Switches to the other country and starts a fetch for it.
    pub fn toggle_country(&mut self) -> (t: FetchTicket)
        requires
            old(self)@.generation < u64::MAX,
        ensures
            final(self)@ == started(AppView { country: other_country(old(self)@.country), ..old(self)@ }),
            t.generation == final(self)@.generation,
            t.url@ == fetch_url(final(self)@),
    {
        self.config.country = match self.config.country {
            Country::US => Country::RU,
            Country::RU => Country::US,
        };
        self.fetch_news()
    }

    /// Switches between the dark and the light theme.
    pub fn toggle_theme(&mut self)
        ensures
            final(self)@ == (AppView { dark_theme: !old(self)@.dark_theme, ..old(self)@ }),
    {
        self.config.dark_theme = !self.config.dark_theme;
    }

    /// Opens the settings window if it is closed, and closes it if it is open.
    pub fn toggle_config_window(&mut self)
        ensures
            final(self)@ == (AppView {
                show_config_window: !old(self)@.show_config_window,
                ..old(self)@
            }),
    {
        self.show_config_window = !self.show_config_window;
    }

    /// Takes a newly entered API key: stores it, closes the settings window
    /// and starts a fetch with it.
    pub fn confirm_api_key(&mut self, api_key: String) -> (t: FetchTicket)
        requires
            old(self)@.generation < u64::MAX,
        ensures
            final(self)@ == started(
                AppView { api_key: api_key@, show_config_window: false, ..old(self)@ },
            ),
            t.generation == final(self)@.generation,
            t.url@ == fetch_url(final(self)@),
    {
        self.config.api_key = api_key;
        self.show_config_window = false;
        self.fetch_news()
    }

    /// The articles on display.
    pub fn articles(&self) -> (r: &Vec<Article>)
        ensures
            r@.map_values(|a: Article| a@) == self@.articles,
    {
        &self.articles
    }

    /// The current settings.
    pub fn config(&self) -> (r: &ApplicationConfig)
        ensures
            r.dark_theme == self@.dark_theme,
            r.api_key@ == self@.api_key,
            r.country == self@.country,
    {
        &self.config
    }

    /// Whether the settings window is open.
    pub fn show_config_window(&self) -> (r: bool)
        ensures
            r == self@.show_config_window,
    {
        self.show_config_window
    }

    /// The generation of the latest fetch started; 0 before the first.
    pub fn generation(&self) -> (r: u64)
        ensures
            r == self@.generation,
    {
        self.generation
    }

    /// Whether a fetch is outstanding.
    pub fn is_fetching(&self) -> (r: bool)
        ensures
            r == self@.pending is Some,
    {
        self.pending.is_some()
    }
}

/// The text shown under an article's title.
pub fn card_description(a: &Article) -> (r: String)
    ensures
        r@ == card_description_text(a@),
{
    match &a.description {
        Some(d) => d.clone(),
        None => String::from_str("..."),
    }
}

/// Taking an outcome drains the fetch: delivering an outcome under the same
/// generation again, whatever it holds, changes nothing.
pub proof fn lemma_delivery_taken_once(
    v: AppView,
    g: nat,
    first: Option<Seq<ArticleView>>,
    again: Option<Seq<ArticleView>>,
)
    ensures
        delivered(delivered(v, g, first), g, again) == delivered(v, g, first),
        delivered(v, g, first).pending != Some(g),
{
}

/// Replace policy: with a fetch A started and then a fetch B, once both
/// outcomes are delivered, in either order, the state is what B's outcome
/// alone makes of it: A's is never heard. So the displayed articles are B's
/// whenever B brought articles.
pub proof fn lemma_newest_fetch_wins(
    v: AppView,
    a: Option<Seq<ArticleView>>,
    b: Option<Seq<ArticleView>>,
)
    ensures
        ({
            let ga = started(v).generation;
            let gb = started(started(v)).generation;
            let s = started(started(v));
            &&& delivered(delivered(s, ga, a), gb, b) == delivered(s, gb, b)
            &&& delivered(delivered(s, gb, b), ga, a) == delivered(s, gb, b)
            &&& b is Some && b->0.len() > 0 ==> delivered(s, gb, b).articles == b->0
        }),
{
}

/// Toggling the country changes, of the next fetch's parameters, only the
/// `country` one, which then holds the other country's code; the displayed
/// articles and the other settings stay as they were.
pub proof fn lemma_toggle_country_only_country(v: AppView)
    ensures
        ({
            let after = started(AppView { country: other_country(v.country), ..v });
            let before_ps = headline_params(v.api_key, v.country);
            let after_ps = headline_params(after.api_key, after.country);
            &&& fetch_url(after) == request_url(NEWS_API_TOP_HEADLINES@, after_ps)
            &&& after_ps.len() == before_ps.len()
            &&& forall|i: int|
                0 <= i < after_ps.len() ==> after_ps[i].0 == before_ps[i].0 && (after_ps[i].0
                    != "country"@ ==> after_ps[i].1 == before_ps[i].1)
            &&& forall|i: int|
                0 <= i < after_ps.len() && after_ps[i].0 == "country"@ ==> after_ps[i].1
                    == country_code(other_country(v.country))
            &&& after.articles == v.articles
            &&& after.api_key == v.api_key
            &&& after.dark_theme == v.dark_theme
            &&& after.show_config_window == v.show_config_window
        }),
{
    reveal_strlit("country");
    reveal_strlit("apiKey");
    let after_ps = headline_params(v.api_key, other_country(v.country));
    assert(after_ps[1].0.len() != "country"@.len());
}

} // verus!
