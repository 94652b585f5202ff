//! Replies for a transport that sets every header itself.

use crate::errors::Error;
use crate::policy::{disabled_features, feature_names, policy};
use crate::recipe::built;
use crate::reply::{header, reply_outcome, Args, Body, Reply, ReplyView};
use crate::resolver::{query_to_url, route};
use vstd::prelude::*;
use vstd::string::*;

verus! {

/// The headers of every reply, in order; `Content-Type` closes them where the
/// reply has a body.
pub open spec fn default_header_list(content_type: Option<Seq<char>>) -> Seq<
    (Seq<char>, Seq<char>),
> {
    let fixed = seq![
        ("Referrer-Policy"@, "no-referrer"@),
        ("X-XSS-Protection"@, "1; mode=block"@),
        ("X-Frame-Options"@, "DENY"@),
        ("X-Content-Type-Options"@, "nosniff"@),
        ("Feature-Policy"@, policy(feature_names(true))),
        ("Permissions-Policy"@, policy(feature_names(true))),
        ("Content-Security-Policy"@, "default-src 'self'"@),
        ("Strict-Transport-Security"@, "max-age=63072000; includeSubDomains; preload "@),
        ("Cross-Origin-Embedder-Policy"@, "require-corp"@),
        ("Cross-Origin-Resource-Policy"@, "cross-origin"@),
        ("Cross-Origin-Opener-Policy"@, "same-origin"@),
    ];
    match content_type {
        Some(kind) => fixed.push(("Content-Type"@, kind)),
        None => fixed,
    }
}

/// The reply that sends the client on to `location`.
pub open spec fn see_other_reply(location: Seq<char>) -> ReplyView {
    ReplyView {
        status: 303,
        headers: default_header_list(None).push(("Location"@, location)),
        body: Body::Empty,
    }
}

/// The reply that shows the page with the search box.
pub open spec fn index_page_reply() -> ReplyView {
    ReplyView {
        status: 200,
        headers: default_header_list(Some("text/html"@)),
        body: Body::LandingPage,
    }
}

/// The reply to a request that asks `q`, where it asks anything: on to the
/// URL of the query, or the page with the search box.
pub open spec fn redirect_reply(q: Option<Seq<char>>) -> Result<ReplyView, Seq<char>> {
    match q {
        Some(query) => match built(route(query)) {
            Ok(location) => Ok(see_other_reply(location)),
            Err(refused) => Err(refused),
        },
        None => Ok(index_page_reply()),
    }
}

/// The headers of every reply.
pub fn default_headers(content_type: Option<&str>) -> (headers: Vec<(String, String)>)
    ensures
        headers.deep_view() == default_header_list(
            match content_type {
                Some(kind) => Some(kind@),
                None => None,
            },
        ),
{
    let disabled = disabled_features(true);
    let mut headers: Vec<(String, String)> = vec![
        header("Referrer-Policy", "no-referrer"),
        header("X-XSS-Protection", "1; mode=block"),
        header("X-Frame-Options", "DENY"),
        header("X-Content-Type-Options", "nosniff"),
        header("Feature-Policy", disabled.as_str()),
        header("Permissions-Policy", disabled.as_str()),
        header("Content-Security-Policy", "default-src 'self'"),
        header("Strict-Transport-Security", "max-age=63072000; includeSubDomains; preload "),
        header("Cross-Origin-Embedder-Policy", "require-corp"),
        header("Cross-Origin-Resource-Policy", "cross-origin"),
        header("Cross-Origin-Opener-Policy", "same-origin"),
    ];
    if let Some(kind) = content_type {
        headers.push(header("Content-Type", kind));
    }
    headers
}

/// The reply that sends the client on to `location`.
pub fn see_other(location: &str) -> (reply: Reply)
    ensures
        reply@ == see_other_reply(location@),
{
    let mut headers = default_headers(None);
    let ghost before = headers.deep_view();
    headers.push(header("Location", location));
    assert(headers.deep_view() =~= before.push(("Location"@, location@)));
    Reply { status: 303, headers, body: Body::Empty }
}

/// The reply that shows the page with the search box.
pub fn index_page() -> (reply: Reply)
    ensures
        reply@ == index_page_reply(),
{
    Reply { status: 200, headers: default_headers(Some("text/html")), body: Body::LandingPage }
}

/// The reply that describes this service to a browser.
pub fn osdf() -> (reply: Reply)
    ensures
        reply@ == (ReplyView {
            status: 200,
            headers: default_header_list(Some("application/opensearchdescription+xml"@)),
            body: Body::SearchDescription,
        }),
{
    Reply {
        status: 200,
        headers: default_headers(Some("application/opensearchdescription+xml")),
        body: Body::SearchDescription,
    }
}

/// The reply to a request with the parameters `args`: on to the URL of its
/// query, or the page with the search box where it has none.
pub fn redirect(args: &Args) -> (res: Result<Reply, Error>)
    ensures
        reply_outcome(res) == redirect_reply(args@),
{
    match &args.q {
        Some(query) => match query_to_url(query.as_str()) {
            Ok(location) => Ok(see_other(location.as_str())),
            Err(e) => Err(e),
        },
        None => Ok(index_page()),
    }
}

/// The reply to a request: `args` are its parameters, where its address
/// carries a query string.
pub fn index(args: Option<&Args>) -> (res: Result<Reply, Error>)
    ensures
        reply_outcome(res) == match args {
            Some(given) => redirect_reply(given@),
            None => Ok(index_page_reply()),
        },
{
    match args {
        Some(given) => redirect(given),
        None => Ok(index_page()),
    }
}

} // verus!
