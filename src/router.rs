//! The route table and the replies of each handler.
use vstd::prelude::*;
use crate::config::{config_text, ServerConfig};
use crate::form::{chosen_lookup, form_map, lookup_view, parse_form_data, plan_lookup, Lookup};
use crate::json::json_string_text;
use crate::records::{records_view, users_json, users_text, UserRecord};
use crate::stats::{stats_page, stats_page_text, StoreCounts};
use crate::text::same_text;

verus! {

/// The request methods the router tells apart.
#[derive(Debug, Clone, Copy, PartialEq, Eq, Structural)]
pub enum HttpMethod {
    Get,
    Post,
    Other,
}

/// The handler a request is dispatched to.
#[derive(Debug, Clone, Copy, PartialEq, Eq, Structural)]
pub enum Route {
    Home,
    Config,
    Query,
    Stats,
    NotFound,
    MethodNotAllowed,
}

/// The route table.
pub open spec fn route_of(method: HttpMethod, url: Seq<char>) -> Route {
    match method {
        HttpMethod::Get => if url == "/"@ {
            Route::Home
        } else if url == "/config"@ {
            Route::Config
        } else {
            Route::NotFound
        },
        HttpMethod::Post => if url == "/query"@ {
            Route::Query
        } else if url == "/stats"@ {
            Route::Stats
        } else {
            Route::NotFound
        },
        HttpMethod::Other => Route::MethodNotAllowed,
    }
}

/// Resolves the handler for a method and path.
pub fn route(method: &HttpMethod, url: &str) -> (r: Route)
    ensures
        r == route_of(*method, url@),
{
    match method {
        HttpMethod::Get => {
            if same_text(url, "/") {
                Route::Home
            } else if same_text(url, "/config") {
                Route::Config
            } else {
                Route::NotFound
            }
        },
        HttpMethod::Post => {
            if same_text(url, "/query") {
                Route::Query
            } else if same_text(url, "/stats") {
                Route::Stats
            } else {
                Route::NotFound
            }
        },
        HttpMethod::Other => Route::MethodNotAllowed,
    }
}

/// The media type a reply declares.
#[derive(Debug, Clone, Copy, PartialEq, Eq, Structural)]
pub enum ContentType {
    /// The transport's default, plain text.
    Plain,
    Json,
    Html,
}

impl ContentType {
    /// The header line to add, if the type is not the default.
    pub fn header_line(&self) -> (r: Option<&'static str>)
        ensures
            match self {
                ContentType::Plain => r.is_none(),
                ContentType::Json => r.is_some() && r.unwrap()@ == "Content-Type: application/json"@,
                ContentType::Html => r.is_some() && r.unwrap()@ == "Content-Type: text/html"@,
            },
    {
        match self {
            ContentType::Plain => None,
            ContentType::Json => Some("Content-Type: application/json"),
            ContentType::Html => Some("Content-Type: text/html"),
        }
    }
}

/// A response: status code, media type and body.
pub struct Reply {
    pub status: u16,
    pub content_type: ContentType,
    pub body: String,
}

impl Reply {
    /// The liveness answer of `GET /`.
    pub fn home() -> (r: Reply)
        ensures
            r.status == 200,
            r.content_type == ContentType::Plain,
            r.body@ == "User Data Server Running"@,
    {
        Reply { status: 200, content_type: ContentType::Plain, body: String::from_str("User Data Server Running") }
    }

    /// The answer for a path that has no handler.
    pub fn not_found() -> (r: Reply)
        ensures
            r.status == 404,
            r.content_type == ContentType::Plain,
            r.body@ == "Not Found"@,
    {
        Reply { status: 404, content_type: ContentType::Plain, body: String::from_str("Not Found") }
    }

    /// The answer for a method other than GET and POST.
    pub fn method_not_allowed() -> (r: Reply)
        ensures
            r.status == 405,
            r.content_type == ContentType::Plain,
            r.body@ == "Method Not Allowed"@,
    {
        Reply { status: 405, content_type: ContentType::Plain, body: String::from_str("Method Not Allowed") }
    }

    /// The answer of `GET /config`: the configuration as JSON.
    pub fn config(cfg: &ServerConfig) -> (r: Reply)
        ensures
            r.status == 200,
            r.content_type == ContentType::Json,
            r.body@ == config_text(json_string_text(cfg.db_path@), cfg.port),
    {
        Reply { status: 200, content_type: ContentType::Json, body: cfg.to_json() }
    }

    /// The answer of `POST /query`, given the rows the lookup found: their
    /// JSON array.
    pub fn query(rows: &Vec<UserRecord>) -> (r: Reply)
        ensures
            r.status == 200,
            r.content_type == ContentType::Json,
            r.body@ == users_text(records_view(rows@)),
            rows@.len() == 0 ==> r.body@ == "[]"@,
    {
        Reply { status: 200, content_type: ContentType::Json, body: users_json(rows) }
    }

    /// The answer of `POST /stats`; `None` stands for a store that could not
    /// be opened.
    pub fn stats(counts: &Option<StoreCounts>) -> (r: Reply)
        ensures
            r.status == 200,
            r.content_type == ContentType::Html,
            r.body@ == stats_page_text(*counts),
    {
        Reply { status: 200, content_type: ContentType::Html, body: stats_page(counts) }
    }
}

/// The lookup that a `POST /query` body asks for; `None` when the body names
/// no known field, in which case the store is not consulted and the answer
/// is `[]`.
pub fn query_lookup(body: &str) -> (r: Option<Lookup>)
    ensures
        lookup_view(r) == chosen_lookup(form_map(body@)),
{
    let form = parse_form_data(body);
    plan_lookup(&form)
}

/// The rows of a lookup that could be decoded, in their order.
pub open spec fn kept_rows(s: Seq<Option<UserRecord>>) -> Seq<UserRecord>
    decreases s.len(),
{
    if s.len() == 0 {
        Seq::empty()
    } else {
        match s.last() {
            Some(u) => kept_rows(s.drop_last()).push(u),
            None => kept_rows(s.drop_last()),
        }
    }
}

/// Keeps the rows of a lookup that could be decoded, in their order, and
/// drops those that failed.
pub fn decoded_rows(fetched: Vec<Option<UserRecord>>) -> (r: Vec<UserRecord>)
    ensures
        r@ == kept_rows(fetched@),
{
    let mut r: Vec<UserRecord> = Vec::new();
    let mut rest = fetched;
    while rest.len() > 0
        invariant
            kept_rows(fetched@) == kept_rows(rest@) + r@,
        decreases rest@.len(),
    {
        let ghost before = rest@;
        let ghost r0 = r@;
        match rest.pop() {
            Some(Some(u)) => {
                r.insert(0, u);
                proof {
                    assert(before.drop_last() == rest@);
                    assert(kept_rows(rest@).push(before.last()->0) + r0 =~= kept_rows(rest@) + r@);
                }
            },
            _ => {
                proof {
                    assert(before.drop_last() == rest@);
                }
            },
        }
    }
    assert(kept_rows(rest@) + r@ =~= r@);
    r
}

} // verus!
