//! Request URLs for the news service and decoding of its answers.
use vstd::prelude::*;

use crate::json::{json_member, json_view, parse_json, parsed_json, JsonView};

verus! {

/// The news edition to ask for.
#[derive(Clone, Copy, Debug, PartialEq, Eq, Structural)]
pub enum Country {
    US,
    RU,
}

/// The two-letter lowercase code that the service expects for a country.
pub open spec fn country_code(c: Country) -> Seq<char> {
    match c {
        Country::US => seq!['u', 's'],
        Country::RU => seq!['r', 'u'],
    }
}

/// The two-letter code of `c`, as it appears in a request.
pub fn resolve_country(c: &Country) -> (r: &'static str)
    ensures
        r@ == country_code(*c),
{
    match c {
        Country::US => {
            proof {
                reveal_strlit("us");
            }
            "us"
        },
        Country::RU => {
            proof {
                reveal_strlit("ru");
            }
            "ru"
        },
    }
}

/// The endpoint for the top headlines of one country.
pub const NEWS_API_TOP_HEADLINES: &'static str = "https://newsapi.org/v2/top-headlines";

/// The endpoint for a search over all articles.
pub const NEWS_API_EVERYTHING: &'static str = "https://newsapi.org/v2/everything";

/// An article as a value: title, link target and optional description.
pub struct ArticleView {
    pub title: Seq<char>,
    pub url: Seq<char>,
    pub description: Option<Seq<char>>,
}

/// One headline of the news service.
#[derive(Clone, Debug)]
pub struct Article {
    pub title: String,
    pub url: String,
    pub description: Option<String>,
}

impl View for Article {
    type V = ArticleView;

    open spec fn view(&self) -> ArticleView {
        ArticleView {
            title: self.title@,
            url: self.url@,
            description: match self.description {
                Some(d) => Some(d@),
                None => None,
            },
        }
    }
}

/// The list of articles of one answer, in the order the service gave them.
#[derive(Clone, Debug)]
pub struct Articles {
    pub articles: Vec<Article>,
}

impl View for Articles {
    type V = Seq<ArticleView>;

    open spec fn view(&self) -> Seq<ArticleView> {
        self.articles@.map_values(|a: Article| a@)
    }
}

/// Why a fetch gave no articles.
#[derive(Clone, Copy, Debug, PartialEq, Eq, Structural)]
pub enum FetchError {
    /// The request did not come back with a successful answer.
    TransportFailure,
    /// The answer was not a JSON document of the expected shape.
    DecodeFailure,
}

/// The member of an object under `key`; nothing for any other value.
pub open spec fn member(doc: JsonView, key: Seq<char>) -> Option<JsonView> {
    match doc {
        JsonView::Object(members) => if members.contains_key(key) {
            Some(members[key])
        } else {
            None
        },
        _ => None,
    }
}

/// A required text member: present and a string.
pub open spec fn text_member(doc: JsonView, key: Seq<char>) -> Option<Seq<char>> {
    match member(doc, key) {
        Some(JsonView::Str(s)) => Some(s),
        _ => None,
    }
}

/// An optional text member: absent or `null` reads as no text, a string as
/// its text; any other value makes the document malformed (`None`).
pub open spec fn optional_text_member(doc: JsonView, key: Seq<char>) -> Option<Option<Seq<char>>> {
    match member(doc, key) {
        None => Some(None),
        Some(JsonView::Null) => Some(None),
        Some(JsonView::Str(s)) => Some(Some(s)),
        _ => None,
    }
}

/// The article that a JSON object describes, if it is well formed; members
/// other than `title`, `url` and `description` are ignored.
pub open spec fn article_of_json(doc: JsonView) -> Option<ArticleView> {
    match (
        text_member(doc, "title"@),
        text_member(doc, "url"@),
        optional_text_member(doc, "description"@),
    ) {
        (Some(t), Some(u), Some(d)) => Some(ArticleView { title: t, url: u, description: d }),
        _ => None,
    }
}

/// The articles of an answer document: an object whose `articles` member is
/// an array of well-formed article objects.
pub open spec fn articles_of_json(doc: JsonView) -> Option<Seq<ArticleView>> {
    match member(doc, "articles"@) {
        Some(JsonView::Array(items)) => if forall|i: int|
            0 <= i < items.len() ==> (#[trigger] article_of_json(items[i])) is Some {
            Some(items.map_values(|j: JsonView| article_of_json(j)->0))
        } else {
            None
        },
        _ => None,
    }
}

/// The articles that an answer body holds, if it is a well-formed answer.
pub open spec fn decoded_articles(body: Seq<char>) -> Option<Seq<ArticleView>> {
    match parsed_json(body) {
        Some(doc) => articles_of_json(doc),
        None => None,
    }
}

fn read_text(v: &serde_json::Value, key: &str) -> (r: Option<String>)
    ensures
        match text_member(json_view(*v), key@) {
            Some(t) => r matches Some(s) && s@ == t,
            None => r is None,
        },
{
    match json_member(v, key) {
        Some(m) => match m.as_str() {
            Some(s) => Some(String::from_str(s)),
            None => None,
        },
        None => None,
    }
}

fn read_optional_text(v: &serde_json::Value, key: &str) -> (r: Option<Option<String>>)
    ensures
        match optional_text_member(json_view(*v), key@) {
            Some(Some(t)) => r matches Some(Some(s)) && s@ == t,
            Some(None) => r == Some(None::<String>),
            None => r is None,
        },
{
    match json_member(v, key) {
        Some(m) => if m.is_null() {
            Some(None)
        } else {
            match m.as_str() {
                Some(s) => Some(Some(String::from_str(s))),
                None => None,
            }
        },
        None => Some(None),
    }
}

/// Reads one article out of a JSON object.
pub fn article_from_json(v: &serde_json::Value) -> (r: Option<Article>)
    ensures
        match article_of_json(json_view(*v)) {
            Some(a) => r matches Some(x) && x@ == a,
            None => r is None,
        },
{
    let title = match read_text(v, "title") {
        Some(t) => t,
        None => return None,
    };
    let url = match read_text(v, "url") {
        Some(u) => u,
        None => return None,
    };
    let description = match read_optional_text(v, "description") {
        Some(d) => d,
        None => return None,
    };
    Some(Article { title, url, description })
}

/// Reads the article list out of an answer document.
pub fn articles_from_json(v: &serde_json::Value) -> (r: Option<Articles>)
    ensures
        match articles_of_json(json_view(*v)) {
            Some(s) => r matches Some(a) && a@ == s,
            None => r is None,
        },
{
    let list = match json_member(v, "articles") {
        Some(m) => m,
        None => return None,
    };
    let items = match list.as_array() {
        Some(a) => a,
        None => return None,
    };
    let ghost docs = match json_view(*list) {
        JsonView::Array(d) => d,
        _ => Seq::empty(),
    };
    assert(json_view(*list) == JsonView::Array(docs));
    let mut out: Vec<Article> = Vec::new();
    let mut i: usize = 0;
    while i < items.len()
        invariant
            0 <= i <= items@.len(),
            member(json_view(*v), "articles"@) == Some(JsonView::Array(docs)),
            items@.len() == docs.len(),
            forall|k: int| 0 <= k < docs.len() ==> json_view(#[trigger] items@[k]) == docs[k],
            out@.len() == i,
            forall|k: int| 0 <= k < i ==> (#[trigger] article_of_json(docs[k])) is Some,
            forall|k: int|
                0 <= k < i ==> (#[trigger] out@[k])@ == article_of_json(docs[k])->0,
        decreases items@.len() - i,
    {
        match article_from_json(&items[i]) {
            Some(a) => out.push(a),
            None => {
                assert(article_of_json(docs[i as int]) is None);
                return None;
            },
        }
        i = i + 1;
    }
    let r = Articles { articles: out };
    assert(r@ =~= docs.map_values(|j: JsonView| article_of_json(j)->0));
    Some(r)
}

/// Decodes an answer body of the news service.
pub fn decode_articles(body: &str) -> (r: Result<Articles, FetchError>)
    ensures
        match decoded_articles(body@) {
            Some(s) => r matches Ok(a) && a@ == s,
            None => r == Err::<Articles, FetchError>(FetchError::DecodeFailure),
        },
{
    match parse_json(body) {
        Ok(doc) => match articles_from_json(&doc) {
            Some(a) => Ok(a),
            None => Err(FetchError::DecodeFailure),
        },
        Err(_) => Err(FetchError::DecodeFailure),
    }
}

/// What a request gave: the body of a successful answer, or `None` where
/// the request failed or the service answered with an error status.
pub fn articles_from_response(response: Option<&str>) -> (r: Result<Articles, FetchError>)
    ensures
        match response {
            None => r == Err::<Articles, FetchError>(FetchError::TransportFailure),
            Some(body) => match decoded_articles(body@) {
                Some(s) => r matches Ok(a) && a@ == s,
                None => r == Err::<Articles, FetchError>(FetchError::DecodeFailure),
            },
        },
{
    match response {
        None => Err(FetchError::TransportFailure),
        Some(body) => decode_articles(body),
    }
}

/// One query parameter as it stands in a URL: `name=value`.
pub open spec fn param_text(p: (Seq<char>, Seq<char>)) -> Seq<char> {
    p.0 + "="@ + p.1
}

/// The query part of a URL: the parameters in order, joined by `&`.
pub open spec fn query_text(params: Seq<(Seq<char>, Seq<char>)>) -> Seq<char>
    decreases params.len(),
{
    if params.len() == 0 {
        Seq::empty()
    } else if params.len() == 1 {
        param_text(params[0])
    } else {
        query_text(params.drop_last()) + "&"@ + param_text(params.last())
    }
}

/// A request URL: an endpoint, `?`, and the query part.
pub open spec fn request_url(endpoint: Seq<char>, params: Seq<(Seq<char>, Seq<char>)>) -> Seq<
    char,
> {
    endpoint + "?"@ + query_text(params)
}

/// A search text as the service expects it: between double quotes.
pub open spec fn quoted(query: Seq<char>) -> Seq<char> {
    "\""@ + query + "\""@
}

/// The parameters of a top-headlines request.
pub open spec fn headline_params(api_key: Seq<char>, c: Country) -> Seq<(Seq<char>, Seq<char>)> {
    seq![("country"@, country_code(c)), ("apiKey"@, api_key)]
}

/// The parameters of a search request, with or without a country.
pub open spec fn search_params(api_key: Seq<char>, query: Seq<char>, c: Option<Country>) -> Seq<
    (Seq<char>, Seq<char>),
> {
    match c {
        None => seq![("q"@, quoted(query)), ("sortBy"@, "popularity"@), ("apiKey"@, api_key)],
        Some(c) => seq![
            ("q"@, quoted(query)),
            ("country"@, country_code(c)),
            ("sortBy"@, "popularity"@),
            ("apiKey"@, api_key),
        ],
    }
}

/// Appends `sep`, `name`, `=` and `value` to a URL being built.
fn append_param(url: &mut String, sep: &str, name: &str, value: &str)
    ensures
        final(url)@ == old(url)@ + sep@ + (name@ + "="@ + value@),
{
    let ghost start = url@;
    url.append(sep);
    url.append(name);
    url.append("=");
    url.append(value);
    assert(url@ =~= start + sep@ + (name@ + "="@ + value@));
}

/// The URL of the top headlines of country `c`.
pub fn top_headlines_url(api_key: &str, c: &Country) -> (r: String)
    ensures
        r@ == request_url(NEWS_API_TOP_HEADLINES@, headline_params(api_key@, *c)),
{
    let mut url = String::from_str(NEWS_API_TOP_HEADLINES);
    append_param(&mut url, "?", "country", resolve_country(c));
    append_param(&mut url, "&", "apiKey", api_key);
    let ghost ps = headline_params(api_key@, *c);
    assert(ps.drop_last() =~= seq![ps[0]]);
    assert(query_text(ps.drop_last()) == param_text(ps[0]));
    assert(query_text(ps) == param_text(ps[0]) + "&"@ + param_text(ps[1]));
    assert(url@ =~= request_url(NEWS_API_TOP_HEADLINES@, ps));
    url
}

/// The URL of a search for `query` over all articles, sorted by popularity.
pub fn search_url(api_key: &str, query: &str) -> (r: String)
    ensures
        r@ == request_url(NEWS_API_EVERYTHING@, search_params(api_key@, query@, None)),
{
    let mut q = String::from_str("\"");
    q.append(query);
    q.append("\"");
    let mut url = String::from_str(NEWS_API_EVERYTHING);
    append_param(&mut url, "?", "q", q.as_str());
    append_param(&mut url, "&", "sortBy", "popularity");
    append_param(&mut url, "&", "apiKey", api_key);
    let ghost ps = search_params(api_key@, query@, None);
    assert(q@ =~= quoted(query@));
    assert(ps.drop_last().drop_last() =~= seq![ps[0]]);
    assert(ps.drop_last() =~= seq![ps[0], ps[1]]);
    assert(query_text(ps.drop_last().drop_last()) == param_text(ps[0]));
    assert(query_text(ps.drop_last()) == param_text(ps[0]) + "&"@ + param_text(ps[1]));
    assert(query_text(ps) == query_text(ps.drop_last()) + "&"@ + param_text(ps[2]));
    assert(url@ =~= request_url(NEWS_API_EVERYTHING@, ps));
    url
}

/// The URL of a search for `query` among the articles of country `c`.
pub fn search_in_country_url(api_key: &str, query: &str, c: &Country) -> (r: String)
    ensures
        r@ == request_url(NEWS_API_EVERYTHING@, search_params(api_key@, query@, Some(*c))),
{
    let mut q = String::from_str("\"");
    q.append(query);
    q.append("\"");
    let mut url = String::from_str(NEWS_API_EVERYTHING);
    append_param(&mut url, "?", "q", q.as_str());
    append_param(&mut url, "&", "country", resolve_country(c));
    append_param(&mut url, "&", "sortBy", "popularity");
    append_param(&mut url, "&", "apiKey", api_key);
    let ghost ps = search_params(api_key@, query@, Some(*c));
    assert(q@ =~= quoted(query@));
    assert(ps.drop_last().drop_last().drop_last() =~= seq![ps[0]]);
    assert(ps.drop_last().drop_last() =~= seq![ps[0], ps[1]]);
    assert(ps.drop_last() =~= seq![ps[0], ps[1], ps[2]]);
    assert(query_text(ps.drop_last().drop_last().drop_last()) == param_text(ps[0]));
    assert(query_text(ps.drop_last().drop_last()) == param_text(ps[0]) + "&"@ + param_text(
        ps[1],
    ));
    assert(query_text(ps.drop_last()) == query_text(ps.drop_last().drop_last()) + "&"@
        + param_text(ps[2]));
    assert(query_text(ps) == query_text(ps.drop_last()) + "&"@ + param_text(ps[3]));
    assert(url@ =~= request_url(NEWS_API_EVERYTHING@, ps));
    url
}

/// Whether `c` occurs nowhere in `s`.
pub open spec fn free_of(s: Seq<char>, c: char) -> bool {
    forall|i: int| 0 <= i < s.len() ==> s[i] != c
}

/// The position of the last `c` in `s`, or -1.
pub open spec fn last_index_of(s: Seq<char>, c: char) -> int
    decreases s.len(),
{
    if s.len() == 0 {
        -1
    } else if s.last() == c {
        s.len() - 1
    } else {
        last_index_of(s.drop_last(), c)
    }
}

/// The position of the first `c` in `s`, or -1.
pub open spec fn first_index_of(s: Seq<char>, c: char) -> int
    decreases s.len(),
{
    if s.len() == 0 {
        -1
    } else if s[0] == c {
        0
    } else if first_index_of(s.drop_first(), c) < 0 {
        -1
    } else {
        first_index_of(s.drop_first(), c) + 1
    }
}

/// A query parameter read from its text: the name up to the first `=`, the
/// value after it.
pub open spec fn read_param(piece: Seq<char>) -> (Seq<char>, Seq<char>) {
    let k = first_index_of(piece, '=');
    if k < 0 {
        (piece, Seq::empty())
    } else {
        (piece.take(k), piece.skip(k + 1))
    }
}

/// The parameters that a query text reads as: the pieces between `&`s, in
/// order, each read by `read_param`.
pub open spec fn read_query(q: Seq<char>) -> Seq<(Seq<char>, Seq<char>)>
    decreases q.len(),
{
    let k = last_index_of(q, '&');
    if k < 0 || k >= q.len() {
        seq![read_param(q)]
    } else {
        read_query(q.take(k)).push(read_param(q.skip(k + 1)))
    }
}

/// The query text of a URL that starts with `endpoint` and `?`.
pub open spec fn query_of(url: Seq<char>, endpoint: Seq<char>) -> Seq<char> {
    url.skip(endpoint.len() + 1 as int)
}

proof fn lemma_last_index_absent(s: Seq<char>, c: char)
    requires
        free_of(s, c),
    ensures
        last_index_of(s, c) == -1,
    decreases s.len(),
{
    if s.len() > 0 {
        lemma_last_index_absent(s.drop_last(), c);
    }
}

proof fn lemma_last_index_after(a: Seq<char>, b: Seq<char>, c: char)
    requires
        free_of(b, c),
    ensures
        last_index_of(a + seq![c] + b, c) == a.len(),
    decreases b.len(),
{
    let s = a + seq![c] + b;
    if b.len() > 0 {
        assert(s.last() == b.last());
        assert(s.drop_last() =~= a + seq![c] + b.drop_last());
        lemma_last_index_after(a, b.drop_last(), c);
    }
}

proof fn lemma_first_index_after(a: Seq<char>, b: Seq<char>, c: char)
    requires
        free_of(a, c),
    ensures
        first_index_of(a + seq![c] + b, c) == a.len(),
    decreases a.len(),
{
    let s = a + seq![c] + b;
    if a.len() > 0 {
        assert(s[0] == a[0]);
        assert(s.drop_first() =~= a.drop_first() + seq![c] + b);
        lemma_first_index_after(a.drop_first(), b, c);
    }
}

proof fn lemma_read_param(p: (Seq<char>, Seq<char>))
    requires
        free_of(p.0, '='),
    ensures
        read_param(param_text(p)) == p,
{
    reveal_strlit("=");
    let t = param_text(p);
    assert(t =~= p.0 + seq!['='] + p.1);
    lemma_first_index_after(p.0, p.1, '=');
    assert(t.take(p.0.len() as int) =~= p.0);
    assert(t.skip(p.0.len() + 1 as int) =~= p.1);
}

/// Query parameters that read back as themselves: names free of `=` and
/// `&`, values free of `&`.
pub open spec fn plain_params(params: Seq<(Seq<char>, Seq<char>)>) -> bool {
    forall|i: int|
        0 <= i < params.len() ==> free_of(#[trigger] params[i].0, '=') && free_of(
            params[i].0,
            '&',
        ) && free_of(params[i].1, '&')
}

proof fn lemma_param_text_free(p: (Seq<char>, Seq<char>))
    requires
        free_of(p.0, '&'),
        free_of(p.1, '&'),
    ensures
        free_of(param_text(p), '&'),
{
    reveal_strlit("=");
    let t = param_text(p);
    assert(t =~= p.0 + seq!['='] + p.1);
    assert forall|i: int| 0 <= i < t.len() implies t[i] != '&' by {
        if i < p.0.len() {
            assert(t[i] == p.0[i]);
        } else if i > p.0.len() {
            assert(t[i] == p.1[i - p.0.len() - 1]);
        }
    }
}

/// Rendering parameters and reading the text back gives the parameters,
/// whenever their names and values are plain.
pub proof fn lemma_read_query_text(params: Seq<(Seq<char>, Seq<char>)>)
    requires
        params.len() > 0,
        plain_params(params),
    ensures
        read_query(query_text(params)) == params,
    decreases params.len(),
{
    reveal_strlit("&");
    let last = params.last();
    assert(plain_params(params) ==> free_of(params[params.len() - 1].0, '='));
    lemma_read_param(last);
    lemma_param_text_free(last);
    if params.len() == 1 {
        lemma_last_index_absent(param_text(last), '&');
        assert(read_query(query_text(params)) =~= params);
    } else {
        let front = params.drop_last();
        assert forall|i: int| 0 <= i < front.len() implies free_of(#[trigger] front[i].0, '=')
            && free_of(front[i].0, '&') && free_of(front[i].1, '&') by {
            assert(front[i] == params[i]);
        }
        lemma_read_query_text(front);
        let a = query_text(front);
        let t = query_text(params);
        assert(t =~= a + seq!['&'] + param_text(last));
        lemma_last_index_after(a, param_text(last), '&');
        assert(t.take(a.len() as int) =~= a);
        assert(t.skip(a.len() + 1 as int) =~= param_text(last));
        assert(read_query(t) =~= front.push(last));
    }
}

proof fn lemma_query_of(endpoint: Seq<char>, params: Seq<(Seq<char>, Seq<char>)>)
    ensures
        query_of(request_url(endpoint, params), endpoint) == query_text(params),
{
    reveal_strlit("?");
    assert(query_of(request_url(endpoint, params), endpoint) =~= query_text(params));
}

/// The query of a top-headlines URL, for a key free of `&`, reads as
/// exactly one `country` parameter, which holds the country's code, and no
/// `q` parameter.
pub proof fn lemma_headline_url_country(api_key: Seq<char>, c: Country)
    requires
        free_of(api_key, '&'),
    ensures
        ({
            let ps = read_query(
                query_of(
                    request_url(NEWS_API_TOP_HEADLINES@, headline_params(api_key, c)),
                    NEWS_API_TOP_HEADLINES@,
                ),
            );
            &&& exists|i: int| 0 <= i < ps.len() && ps[i] == ("country"@, country_code(c))
            &&& forall|i: int, j: int|
                0 <= i < ps.len() && 0 <= j < ps.len() && ps[i].0 == "country"@ && ps[j].0
                    == "country"@ ==> i == j
            &&& forall|i: int| 0 <= i < ps.len() ==> ps[i].0 != "q"@
        }),
{
    reveal_strlit("country");
    reveal_strlit("apiKey");
    reveal_strlit("q");
    let ps = headline_params(api_key, c);
    assert(free_of(ps[0].0, '=') && free_of(ps[0].0, '&') && free_of(ps[0].1, '&'));
    assert(free_of(ps[1].0, '=') && free_of(ps[1].0, '&') && free_of(ps[1].1, '&'));
    assert(plain_params(ps));
    lemma_query_of(NEWS_API_TOP_HEADLINES@, ps);
    lemma_read_query_text(ps);
    assert(ps[0] == ("country"@, country_code(c)));
    assert(ps[1].0 != "country"@);
}

/// The query of a search URL, for a key and a search text free of `&`,
/// reads as a `q` parameter holding the quoted text and `sortBy=popularity`;
/// it has a `country` parameter exactly when a country was given, and that
/// one holds its code.
pub proof fn lemma_search_url_params(api_key: Seq<char>, query: Seq<char>, c: Option<Country>)
    requires
        free_of(api_key, '&'),
        free_of(query, '&'),
    ensures
        ({
            let ps = read_query(
                query_of(
                    request_url(NEWS_API_EVERYTHING@, search_params(api_key, query, c)),
                    NEWS_API_EVERYTHING@,
                ),
            );
            &&& exists|i: int| 0 <= i < ps.len() && ps[i] == ("q"@, quoted(query))
            &&& exists|i: int| 0 <= i < ps.len() && ps[i] == ("sortBy"@, "popularity"@)
            &&& (exists|i: int| 0 <= i < ps.len() && ps[i].0 == "country"@) <==> c is Some
            &&& forall|i: int|
                0 <= i < ps.len() && ps[i].0 == "country"@ ==> ps[i].1 == country_code(c->0)
        }),
{
    reveal_strlit("country");
    reveal_strlit("apiKey");
    reveal_strlit("q");
    reveal_strlit("sortBy");
    reveal_strlit("popularity");
    reveal_strlit("\"");
    let ps = search_params(api_key, query, c);
    assert(free_of(quoted(query), '&')) by {
        let t = quoted(query);
        assert forall|i: int| 0 <= i < t.len() implies t[i] != '&' by {
            if 1 <= i < t.len() - 1 {
                assert(t[i] == query[i - 1]);
            }
        }
    }
    assert forall|i: int| 0 <= i < ps.len() implies free_of(#[trigger] ps[i].0, '=') && free_of(
        ps[i].0,
        '&',
    ) && free_of(ps[i].1, '&') by {}
    lemma_query_of(NEWS_API_EVERYTHING@, ps);
    lemma_read_query_text(ps);
    assert(ps[0] == ("q"@, quoted(query)));
    match c {
        None => {
            assert(ps[1] == ("sortBy"@, "popularity"@));
            assert forall|i: int| 0 <= i < ps.len() implies ps[i].0 != "country"@ by {
                assert(ps[i].0.len() != "country"@.len());
            }
        },
        Some(cc) => {
            assert(ps[2] == ("sortBy"@, "popularity"@));
            assert(ps[1] == ("country"@, country_code(cc)));
            assert forall|i: int| 0 <= i < ps.len() && ps[i].0 == "country"@ implies ps[i].1
                == country_code(cc) by {
                if i != 1 {
                    assert(ps[i].0.len() != "country"@.len());
                }
            }
        },
    }
}

} // verus!
