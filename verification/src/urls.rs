//! The URL parser of the `url` crate, reached through three calls. What each
//! returns is taken on trust and given a name; nothing here says what a name
//! holds for any given text.

use url::{ParseError, Url};
use vstd::prelude::*;

verus! {

#[verifier::external_type_specification]
#[verifier::external_body]
pub struct ExParseError(ParseError);

/// Longest endpoint, in characters, that `parse_with_params` accepts.
pub const MAX_ENDPOINT_LEN: usize = 4096;

/// The serialization of the absolute URL that `text` parses to, if it parses.
pub uninterp spec fn parsed(text: Seq<char>) -> Option<Seq<char>>;

/// The serialization of `reference` resolved against the URL that `url` parses
/// to, if both succeed.
pub uninterp spec fn joined(url: Seq<char>, reference: Seq<char>) -> Option<Seq<char>>;

/// The serialization of the URL that `text` parses to with `params` added to its
/// query string in order, if `text` parses.
pub uninterp spec fn parsed_with_params(
    text: Seq<char>,
    params: Seq<(Seq<char>, Seq<char>)>,
) -> Option<Seq<char>>;

/// An endpoint that takes query parameters: of bounded length and without a
/// fragment, so that the parameters end the URL.
pub open spec fn plain_endpoint(text: Seq<char>) -> bool {
    text.len() <= MAX_ENDPOINT_LEN && !text.contains('#')
}

/// `Url::parse`, with the URL handed back as its serialization. The contract
/// claims that success and the serialization depend on `text` alone.
#[verifier::external_body]
pub(crate) fn parse(text: &str) -> (res: Result<String, ParseError>)
    ensures
        match res {
            Ok(url) => parsed(text@) == Some(url@),
            Err(_) => parsed(text@) is None,
        },
{
    Url::parse(text).map(String::from)
}

/// `Url::join` on the URL that `url` parses to, with the result handed back as
/// its serialization. The contract claims that success and the serialization
/// depend on the two texts alone; a `url` that does not parse is an error too.
#[verifier::external_body]
pub(crate) fn join(url: &str, reference: &str) -> (res: Result<String, ParseError>)
    ensures
        match res {
            Ok(resolved) => joined(url@, reference@) == Some(resolved@),
            Err(_) => joined(url@, reference@) is None,
        },
{
    Url::parse(url)?.join(reference).map(String::from)
}

/// `Url::parse_with_params`, with the URL handed back as its serialization. The
/// contract claims that success and the serialization depend on `text` and
/// `params` alone. The call records the end of the query string in 32 bits and
/// panics where it does not fit: a short `text` without fragment keeps the
/// parameters last and every recorded position small.
#[verifier::external_body]
pub(crate) fn parse_with_params(text: &str, params: &Vec<(String, String)>) -> (res: Result<
    String,
    ParseError,
>)
    requires
        plain_endpoint(text@),
    ensures
        match res {
            Ok(url) => parsed_with_params(text@, params.deep_view()) == Some(url@),
            Err(_) => parsed_with_params(text@, params.deep_view()) is None,
        },
{
    Url::parse_with_params(text, params).map(String::from)
}

} // verus!
