//! A recipe says how the URL of a destination is put together; building it is
//! the only step that calls the URL parser.

use crate::errors::Error;
use crate::text::contains;
use crate::urls::{
    join, joined, parse, parse_with_params, parsed, parsed_with_params, plain_endpoint,
    MAX_ENDPOINT_LEN,
};
use vstd::prelude::*;
use vstd::string::*;

verus! {

/// How to put a URL together.
#[derive(Debug, PartialEq, Eq)]
pub enum Recipe {
    /// `text` is the absolute URL.
    Absolute { text: String },
    /// Each of `references` in turn is resolved against what came before,
    /// starting from `base`, as a link in a page is.
    Path { base: String, references: Vec<String> },
    /// `params` are added in order, form-encoded, to the query string of `endpoint`.
    Search { endpoint: String, params: Vec<(String, String)> },
}

/// What a `Recipe` says, over sequences of characters.
pub enum Plan {
    /// `text` is the absolute URL.
    Absolute { text: Seq<char> },
    /// `references` are resolved in turn, starting from `base`.
    Path { base: Seq<char>, references: Seq<Seq<char>> },
    /// `params` are added in order to the query string of `endpoint`.
    Search { endpoint: Seq<char>, params: Seq<(Seq<char>, Seq<char>)> },
}

impl View for Recipe {
    type V = Plan;

    open spec fn view(&self) -> Plan {
        match self {
            Recipe::Absolute { text } => Plan::Absolute { text: text@ },
            Recipe::Path { base, references } => Plan::Path {
                base: base@,
                references: references.deep_view(),
            },
            Recipe::Search { endpoint, params } => Plan::Search {
                endpoint: endpoint@,
                params: params.deep_view(),
            },
        }
    }
}

/// `references` resolved one after another, starting from the URL `url`: the
/// last URL, or the first reference that could not be resolved.
pub open spec fn resolved(url: Seq<char>, references: Seq<Seq<char>>) -> Result<
    Seq<char>,
    Seq<char>,
>
    decreases references.len(),
{
    if references.len() == 0 {
        Ok(url)
    } else {
        match joined(url, references[0]) {
            Some(next) => resolved(next, references.skip(1)),
            None => Err(references[0]),
        }
    }
}

/// The URL that `plan` gives, or the text that the parser refused.
pub open spec fn built(plan: Plan) -> Result<Seq<char>, Seq<char>> {
    match plan {
        Plan::Absolute { text } => match parsed(text) {
            Some(url) => Ok(url),
            None => Err(text),
        },
        Plan::Path { base, references } => match parsed(base) {
            Some(url) => resolved(url, references),
            None => Err(base),
        },
        Plan::Search { endpoint, params } => match parsed_with_params(endpoint, params) {
            Some(url) => Ok(url),
            None => Err(endpoint),
        },
    }
}

/// A plan that can be built: its search endpoint, if it has one, is plain.
pub open spec fn buildable(plan: Plan) -> bool {
    plan matches Plan::Search { endpoint, .. } ==> plain_endpoint(endpoint)
}

/// The outcome of a build, over sequences of characters.
pub open spec fn outcome(res: Result<String, Error>) -> Result<Seq<char>, Seq<char>> {
    match res {
        Ok(url) => Ok(url@),
        Err(e) => Err(e.refused()),
    }
}

/// The plan that resolves one reference against `base`.
pub open spec fn path(base: Seq<char>, reference: Seq<char>) -> Plan {
    Plan::Path { base, references: seq![reference] }
}

/// The plan that resolves `first` against `base`, and `second` against the result.
pub open spec fn path2(base: Seq<char>, first: Seq<char>, second: Seq<char>) -> Plan {
    Plan::Path { base, references: seq![first, second] }
}

/// The plan that adds the one parameter `key`, with `value`, to `endpoint`.
pub open spec fn search(endpoint: Seq<char>, key: Seq<char>, value: Seq<char>) -> Plan {
    Plan::Search { endpoint, params: seq![(key, value)] }
}

impl Recipe {
    /// The recipe whose URL is `text` itself.
    pub fn absolute(text: String) -> (recipe: Recipe)
        ensures
            recipe@ == (Plan::Absolute { text: text@ }),
    {
        Recipe::Absolute { text }
    }

    /// The recipe that resolves `reference` against `base`.
    pub fn path(base: &str, reference: String) -> (recipe: Recipe)
        ensures
            recipe@ == path(base@, reference@),
    {
        let references: Vec<String> = vec![reference];
        assert(references.deep_view() == seq![reference@]);
        Recipe::Path { base: String::from_str(base), references }
    }

    /// The recipe that resolves `first` against `base`, and `second` against the result.
    pub fn path2(base: &str, first: &str, second: &str) -> (recipe: Recipe)
        ensures
            recipe@ == path2(base@, first@, second@),
    {
        let references: Vec<String> = vec![String::from_str(first), String::from_str(second)];
        assert(references.deep_view() == seq![first@, second@]);
        Recipe::Path { base: String::from_str(base), references }
    }

    /// The recipe that adds the one parameter `key`, with `value`, to `endpoint`.
    pub fn search(endpoint: &str, key: &str, value: &str) -> (recipe: Recipe)
        ensures
            recipe@ == search(endpoint@, key@, value@),
    {
        let params: Vec<(String, String)> = vec![(String::from_str(key), String::from_str(value))];
        assert(params.deep_view() == seq![(key@, value@)]);
        Recipe::Search { endpoint: String::from_str(endpoint), params }
    }

    /// Whether this recipe can be built.
    pub fn is_buildable(&self) -> (b: bool)
        ensures
            b == buildable(self@),
    {
        match self {
            Recipe::Search { endpoint, .. } => {
                endpoint.as_str().unicode_len() <= MAX_ENDPOINT_LEN && !contains(
                    endpoint.as_str(),
                    '#',
                )
            },
            _ => true,
        }
    }

    /// Puts the URL together. The result is the serialization of the URL, or
    /// an error that holds the text which is no valid URL.
    pub fn build(&self) -> (res: Result<String, Error>)
        requires
            buildable(self@),
        ensures
            outcome(res) == built(self@),
    {
        match self {
            Recipe::Absolute { text } => match parse(text.as_str()) {
                Ok(url) => Ok(url),
                Err(_) => Err(Error::UrlBuildError { input: text.clone() }),
            },
            Recipe::Path { base, references } => {
                let mut url = match parse(base.as_str()) {
                    Ok(url) => url,
                    Err(_) => {
                        return Err(Error::UrlBuildError { input: base.clone() });
                    },
                };
                let ghost all = references.deep_view();
                let mut i: usize = 0;
                proof {
                    assert(all.skip(0) == all);
                }
                while i < references.len()
                    invariant
                        i <= references.len(),
                        all == references.deep_view(),
                        resolved(url@, all.skip(i as int)) == built(self@),
                    decreases references.len() - i,
                {
                    let reference = &references[i];
                    proof {
                        assert(all.skip(i as int).skip(1) == all.skip(i + 1));
                    }
                    match join(url.as_str(), reference.as_str()) {
                        Ok(next) => {
                            url = next;
                        },
                        Err(_) => {
                            return Err(Error::UrlBuildError { input: reference.clone() });
                        },
                    }
                    i = i + 1;
                }
                Ok(url)
            },
            Recipe::Search { endpoint, params } => match parse_with_params(
                endpoint.as_str(),
                params,
            ) {
                Ok(url) => Ok(url),
                Err(_) => Err(Error::UrlBuildError { input: endpoint.clone() }),
            },
        }
    }
}

} // verus!
