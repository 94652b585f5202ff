//! What a transport is told to answer, in plain values.

use crate::errors::Error;
use vstd::prelude::*;
use vstd::string::*;

verus! {

/// The parameters of a request.
#[derive(Debug, PartialEq, Eq)]
pub struct Args {
    /// The query, where the request carries one.
    pub q: Option<String>,
}

/// What a reply carries below its headers. The transport holds the documents.
#[derive(Debug, Clone, Copy, PartialEq, Eq)]
pub enum Body {
    /// Nothing.
    Empty,
    /// The page with the search box.
    LandingPage,
    /// The OpenSearch description of this service.
    SearchDescription,
}

/// A reply: its status, its headers in order, and its body.
#[derive(Debug, PartialEq, Eq)]
pub struct Reply {
    pub status: u16,
    pub headers: Vec<(String, String)>,
    pub body: Body,
}

/// A `Reply` over sequences of characters.
pub struct ReplyView {
    pub status: u16,
    pub headers: Seq<(Seq<char>, Seq<char>)>,
    pub body: Body,
}

impl View for Reply {
    type V = ReplyView;

    open spec fn view(&self) -> ReplyView {
        ReplyView { status: self.status, headers: self.headers.deep_view(), body: self.body }
    }
}

impl View for Args {
    type V = Option<Seq<char>>;

    open spec fn view(&self) -> Option<Seq<char>> {
        match self.q {
            Some(query) => Some(query@),
            None => None,
        }
    }
}

/// The outcome of a request, over sequences of characters: the reply, or the
/// text that is no valid URL.
pub open spec fn reply_outcome(res: Result<Reply, Error>) -> Result<ReplyView, Seq<char>> {
    match res {
        Ok(reply) => Ok(reply@),
        Err(e) => Err(e.refused()),
    }
}

/// The header `name` with `value`.
pub fn header(name: &str, value: &str) -> (pair: (String, String))
    ensures
        pair.deep_view() == (name@, value@),
{
    (String::from_str(name), String::from_str(value))
}

} // verus!
