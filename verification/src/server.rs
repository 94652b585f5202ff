//! Replies for a transport that adds the headers of every reply by itself.

use crate::errors::Error;
use crate::policy::{disabled_features, feature_names, policy};
use crate::recipe::built;
use crate::reply::{header, reply_outcome, Args, Body, Reply, ReplyView};
use crate::resolver::{query_to_url, route};
use vstd::prelude::*;
use vstd::string::*;

verus! {

/// The headers that the transport adds to every reply, in order.
pub open spec fn default_header_list() -> Seq<(Seq<char>, Seq<char>)> {
    seq![
        ("Referrer-Policy"@, "no-referrer"@),
        ("X-XSS-Protection"@, "1; mode=block"@),
        ("X-Frame-Options"@, "DENY"@),
        ("X-Content-Type-Options"@, "nosniff"@),
        ("Feature-Policy"@, policy(feature_names(false))),
        ("Content-Security-Policy"@, "default-src 'self'"@),
        ("Cross-Origin-Embedder-Policy"@, "require-corp"@),
        ("Cross-Origin-Resource-Policy"@, "cross-origin"@),
        ("Cross-Origin-Opener-Policy"@, "same-origin"@),
        ("Strict-Transport-Security"@, "max-age=63072000; includeSubDomains; preload "@),
    ]
}

/// The reply that sends the client on to `location`.
pub open spec fn see_other_reply(location: Seq<char>) -> ReplyView {
    ReplyView { status: 303, headers: seq![("Location"@, location)], body: Body::Empty }
}

/// The reply that shows the page with the search box.
pub open spec fn index_page_reply() -> ReplyView {
    ReplyView {
        status: 200,
        headers: seq![("Content-Type"@, "text/html"@)],
        body: Body::LandingPage,
    }
}

/// The reply to a request that asks `q`, where it asks anything: on to the
/// URL of the query, or the page with the search box.
pub open spec fn index_reply(q: Option<Seq<char>>) -> Result<ReplyView, Seq<char>> {
    match q {
        Some(query) => match built(route(query)) {
            Ok(location) => Ok(see_other_reply(location)),
            Err(refused) => Err(refused),
        },
        None => Ok(index_page_reply()),
    }
}

/// The headers that the transport adds to every reply.
pub fn default_headers() -> (headers: Vec<(String, String)>)
    ensures
        headers.deep_view() == default_header_list(),
{
    let disabled = disabled_features(false);
    let headers: Vec<(String, String)> = vec![
        header("Referrer-Policy", "no-referrer"),
        header("X-XSS-Protection", "1; mode=block"),
        header("X-Frame-Options", "DENY"),
        header("X-Content-Type-Options", "nosniff"),
        header("Feature-Policy", disabled.as_str()),
        header("Content-Security-Policy", "default-src 'self'"),
        header("Cross-Origin-Embedder-Policy", "require-corp"),
        header("Cross-Origin-Resource-Policy", "cross-origin"),
        header("Cross-Origin-Opener-Policy", "same-origin"),
        header("Strict-Transport-Security", "max-age=63072000; includeSubDomains; preload "),
    ];
    headers
}

/// The reply that sends the client on to `location`.
pub fn see_other(location: &str) -> (reply: Reply)
    ensures
        reply@ == see_other_reply(location@),
{
    let headers: Vec<(String, String)> = vec![header("Location", location)];
    assert(headers.deep_view() =~= seq![("Location"@, location@)]);
    Reply { status: 303, headers, body: Body::Empty }
}

/// The reply that shows the page with the search box.
pub fn index_page() -> (reply: Reply)
    ensures
        reply@ == index_page_reply(),
{
    let headers: Vec<(String, String)> = vec![header("Content-Type", "text/html")];
    assert(headers.deep_view() =~= seq![("Content-Type"@, "text/html"@)]);
    Reply { status: 200, headers, body: Body::LandingPage }
}

/// The reply to a request with the parameters `args`: on to the URL of its
/// query, or the page with the search box where it has none.
pub fn index(args: &Args) -> (res: Result<Reply, Error>)
    ensures
        reply_outcome(res) == index_reply(args@),
{
    match &args.q {
        Some(query) => match query_to_url(query.as_str()) {
            Ok(location) => Ok(see_other(location.as_str())),
            Err(e) => Err(e),
        },
        None => Ok(index_page()),
    }
}

/// The reply that describes this service to a browser.
pub fn osdf() -> (reply: Reply)
    ensures
        reply@ == (ReplyView {
            status: 200,
            headers: seq![("Content-Type"@, "application/opensearchdescription+xml"@)],
            body: Body::SearchDescription,
        }),
{
    let headers: Vec<(String, String)> = vec![
        header("Content-Type", "application/opensearchdescription+xml"),
    ];
    assert(headers.deep_view() =~= seq![
        ("Content-Type"@, "application/opensearchdescription+xml"@),
    ]);
    Reply { status: 200, headers, body: Body::SearchDescription }
}

} // verus!
