//! One builder for each destination: from what follows the prefix in a query
//! to the recipe of the URL.

use crate::recipe::{buildable, path, path2, search, Plan, Recipe};
use crate::text::{
    contains, ends_with, equals, find, find_either, first, first_of, strip_prefix, without,
    without_spaces,
};
use vstd::prelude::*;
use vstd::string::*;

verus! {

/// Documentation of a crate: of the standard library for `std`; else of the
/// named package, at a version where the first `/` or `@` is followed by one.
pub open spec fn docs_plan(q: Seq<char>) -> Plan {
    if q == "std"@ {
        Plan::Absolute { text: "https://doc.rust-lang.org/stable/std/"@ }
    } else {
        let i = first_of(q, '/', '@');
        if i + 1 < q.len() {
            path("https://docs.rs/"@, q.update(i, '/'))
        } else {
            path("https://docs.rs/"@, directory(q))
        }
    }
}

/// `s`, closed by a `/` where it does not end in one.
pub open spec fn directory(s: Seq<char>) -> Seq<char> {
    if s.len() > 0 && s.last() == '/' {
        s
    } else {
        s.push('/')
    }
}

/// `s`, closed by a `/` where it does not end in one.
fn as_directory(s: &str) -> (r: String)
    ensures
        r@ == directory(s@),
{
    if ends_with(s, '/') {
        String::from_str(s)
    } else {
        proof {
            reveal_strlit("/");
        }
        String::from_str(s).concat("/")
    }
}

/// The recipe of the documentation that `query` names.
pub fn handle_docs(query: &str) -> (recipe: Recipe)
    ensures
        recipe@ == docs_plan(query@),
        buildable(recipe@),
{
    if equals(query, "std") {
        return Recipe::absolute(String::from_str("https://doc.rust-lang.org/stable/std/"));
    }
    let n: usize = query.unicode_len();
    proof {
        reveal_strlit("/");
    }
    let reference: String = match find_either(query, '/', '@') {
        Some(i) => {
            if i + 1 < n {
                let package = query.substring_char(0, i);
                let version = query.substring_char(i + 1, n);
                let joined = String::from_str(package).concat("/").concat(version);
                assert(joined@ == query@.update(i as int, '/'));
                joined
            } else {
                as_directory(query)
            }
        },
        None => as_directory(query),
    };
    Recipe::path("https://docs.rs/", reference)
}

/// GitHub: a user after `@` or `u/`; a repository path where there is a `/`,
/// with `#n` or `!n` after the first space naming an issue or a pull request;
/// else a search.
pub open spec fn github_plan(q: Seq<char>) -> Plan {
    if "@"@.is_prefix_of(q) {
        path("https://github.com/"@, q.skip(1))
    } else if "u/"@.is_prefix_of(q) {
        path("https://github.com/"@, q.skip(2))
    } else if q.contains('/') {
        let i = first(q, ' ');
        if i < q.len() && "#"@.is_prefix_of(q.skip(i + 1)) {
            path("https://github.com/"@, q.take(i) + "/issues/"@ + q.skip(i + 2))
        } else if i < q.len() && "!"@.is_prefix_of(q.skip(i + 1)) {
            path("https://github.com/"@, q.take(i) + "/pull/"@ + q.skip(i + 2))
        } else {
            path("https://github.com/"@, q)
        }
    } else {
        search("https://github.com/search"@, "q"@, q)
    }
}

/// The recipe of the GitHub page that `query` names.
pub fn handle_github(query: &str) -> (recipe: Recipe)
    ensures
        recipe@ == github_plan(query@),
        buildable(recipe@),
{
    proof {
        reveal_strlit("@");
        reveal_strlit("u/");
        reveal_strlit("#");
        reveal_strlit("!");
    }
    if let Some(user) = strip_prefix(query, "@") {
        return Recipe::path("https://github.com/", String::from_str(user));
    }
    if let Some(user) = strip_prefix(query, "u/") {
        return Recipe::path("https://github.com/", String::from_str(user));
    }
    if !contains(query, '/') {
        proof {
            reveal_strlit("https://github.com/search");
        }
        return Recipe::search("https://github.com/search", "q", query);
    }
    let n: usize = query.unicode_len();
    let reference: String = match find(query, ' ') {
        Some(i) => {
            let repository = query.substring_char(0, i);
            let token = query.substring_char(i + 1, n);
            if let Some(number) = strip_prefix(token, "#") {
                assert(number@ == query@.skip(i + 2));
                String::from_str(repository).concat("/issues/").concat(number)
            } else if let Some(number) = strip_prefix(token, "!") {
                assert(number@ == query@.skip(i + 2));
                String::from_str(repository).concat("/pull/").concat(number)
            } else {
                String::from_str(query)
            }
        },
        None => String::from_str(query),
    };
    Recipe::path("https://github.com/", reference)
}

/// Wikipedia: a search of the English edition.
pub open spec fn wikipedia_plan(q: Seq<char>) -> Plan {
    search("https://en.wikipedia.org/wiki/Special:Search"@, "search"@, q)
}

/// The recipe of a Wikipedia search for `query`.
pub fn handle_wikipedia(query: &str) -> (recipe: Recipe)
    ensures
        recipe@ == wikipedia_plan(query@),
        buildable(recipe@),
{
    proof {
        reveal_strlit("https://en.wikipedia.org/wiki/Special:Search");
    }
    Recipe::search("https://en.wikipedia.org/wiki/Special:Search", "search", query)
}

/// Stack Overflow: a search.
pub open spec fn stackoverflow_plan(q: Seq<char>) -> Plan {
    search("https://stackoverflow.com/search"@, "q"@, q)
}

/// The recipe of a Stack Overflow search for `query`.
pub fn handle_stackoverflow(query: &str) -> (recipe: Recipe)
    ensures
        recipe@ == stackoverflow_plan(query@),
        buildable(recipe@),
{
    proof {
        reveal_strlit("https://stackoverflow.com/search");
    }
    Recipe::search("https://stackoverflow.com/search", "q", query)
}

/// crates.io: a search.
pub open spec fn crates_plan(q: Seq<char>) -> Plan {
    search("https://crates.io/search"@, "q"@, q)
}

/// The recipe of a crates.io search for `query`.
pub fn handle_crates(query: &str) -> (recipe: Recipe)
    ensures
        recipe@ == crates_plan(query@),
        buildable(recipe@),
{
    proof {
        reveal_strlit("https://crates.io/search");
    }
    Recipe::search("https://crates.io/search", "q", query)
}

/// Urban Dictionary: the definitions of a term.
pub open spec fn urban_dictionary_plan(q: Seq<char>) -> Plan {
    search("https://www.urbandictionary.com/define.php"@, "term"@, q)
}

/// The recipe of the Urban Dictionary page of the term `query`.
pub fn handle_urban_dictionary(query: &str) -> (recipe: Recipe)
    ensures
        recipe@ == urban_dictionary_plan(query@),
        buildable(recipe@),
{
    proof {
        reveal_strlit("https://www.urbandictionary.com/define.php");
    }
    Recipe::search("https://www.urbandictionary.com/define.php", "term", query)
}

/// Core Electronics: a search of the catalogue.
pub open spec fn core_plan(q: Seq<char>) -> Plan {
    search("https://core-electronics.com.au/catalogsearch/result/"@, "q"@, q)
}

/// The recipe of a Core Electronics search for `query`.
pub fn handle_core(query: &str) -> (recipe: Recipe)
    ensures
        recipe@ == core_plan(query@),
        buildable(recipe@),
{
    proof {
        reveal_strlit("https://core-electronics.com.au/catalogsearch/result/");
    }
    Recipe::search("https://core-electronics.com.au/catalogsearch/result/", "q", query)
}

/// npm: a search.
pub open spec fn npm_plan(q: Seq<char>) -> Plan {
    search("https://www.npmjs.com/search"@, "q"@, q)
}

/// The recipe of an npm search for `query`.
pub fn handle_npm(query: &str) -> (recipe: Recipe)
    ensures
        recipe@ == npm_plan(query@),
        buildable(recipe@),
{
    proof {
        reveal_strlit("https://www.npmjs.com/search");
    }
    Recipe::search("https://www.npmjs.com/search", "q", query)
}

/// Docker Hub: an official image after `/`, `_/`, or `r/` where no further `/`
/// follows; a repository of a namespace where there is a `/`; else a search.
pub open spec fn docker_hub_plan(q: Seq<char>) -> Plan {
    if "r/"@.is_prefix_of(q) {
        if q.skip(2).contains('/') {
            path2("https://hub.docker.com/"@, "r/"@, q.skip(2))
        } else {
            path2("https://hub.docker.com/"@, "_/"@, q.skip(2))
        }
    } else if "/"@.is_prefix_of(q) {
        path2("https://hub.docker.com/"@, "_/"@, q.skip(1))
    } else if "_/"@.is_prefix_of(q) {
        path2("https://hub.docker.com/"@, "_/"@, q.skip(2))
    } else if q.contains('/') {
        path2("https://hub.docker.com/"@, "r/"@, q)
    } else {
        search("https://hub.docker.com/search"@, "q"@, q)
    }
}

/// The recipe of the Docker Hub page that `query` names.
pub fn handle_docker_hub(query: &str) -> (recipe: Recipe)
    ensures
        recipe@ == docker_hub_plan(query@),
        buildable(recipe@),
{
    proof {
        reveal_strlit("r/");
        reveal_strlit("/");
        reveal_strlit("_/");
    }
    if let Some(name) = strip_prefix(query, "r/") {
        if contains(name, '/') {
            Recipe::path2("https://hub.docker.com/", "r/", name)
        } else {
            Recipe::path2("https://hub.docker.com/", "_/", name)
        }
    } else if let Some(name) = strip_prefix(query, "/") {
        Recipe::path2("https://hub.docker.com/", "_/", name)
    } else if let Some(name) = strip_prefix(query, "_/") {
        Recipe::path2("https://hub.docker.com/", "_/", name)
    } else if contains(query, '/') {
        Recipe::path2("https://hub.docker.com/", "r/", query)
    } else {
        proof {
            reveal_strlit("https://hub.docker.com/search");
        }
        Recipe::search("https://hub.docker.com/search", "q", query)
    }
}

/// Australia Post: the tracking page of a consignment. The number follows the
/// `#` of the page's address as it stands.
pub open spec fn auspost_plan(q: Seq<char>) -> Plan {
    Plan::Absolute { text: "https://auspost.com.au/mypost/track/#/details/"@ + q }
}

/// The recipe of the tracking page of the consignment `query`.
pub fn handle_auspost(query: &str) -> (recipe: Recipe)
    ensures
        recipe@ == auspost_plan(query@),
        buildable(recipe@),
{
    Recipe::absolute(
        String::from_str("https://auspost.com.au/mypost/track/#/details/").concat(query),
    )
}

/// Booktopia: a search among books.
pub open spec fn booktopia_plan(q: Seq<char>) -> Plan {
    Plan::Search {
        endpoint: "https://www.booktopia.com.au/search.ep"@,
        params: seq![("keywords"@, q), ("productType"@, "917504"@)],
    }
}

/// The recipe of a Booktopia search for `query` among books.
pub fn handle_booktopia(query: &str) -> (recipe: Recipe)
    ensures
        recipe@ == booktopia_plan(query@),
        buildable(recipe@),
{
    let params: Vec<(String, String)> = vec![
        (String::from_str("keywords"), String::from_str(query)),
        (String::from_str("productType"), String::from_str("917504")),
    ];
    proof {
        reveal_strlit("https://www.booktopia.com.au/search.ep");
        assert(params.deep_view() == seq![("keywords"@, query@), ("productType"@, "917504"@)]);
    }
    Recipe::Search { endpoint: String::from_str("https://www.booktopia.com.au/search.ep"), params }
}

/// Twitch: a channel after `@`; else a search.
pub open spec fn twitch_plan(q: Seq<char>) -> Plan {
    if "@"@.is_prefix_of(q) {
        path("https://www.twitch.tv/"@, q.skip(1))
    } else {
        search("https://www.twitch.tv/search"@, "term"@, q)
    }
}

/// The recipe of the Twitch page that `query` names.
pub fn handle_twitch(query: &str) -> (recipe: Recipe)
    ensures
        recipe@ == twitch_plan(query@),
        buildable(recipe@),
{
    proof {
        reveal_strlit("@");
        reveal_strlit("https://www.twitch.tv/search");
    }
    match strip_prefix(query, "@") {
        Some(channel) => Recipe::path("https://www.twitch.tv/", String::from_str(channel)),
        None => Recipe::search("https://www.twitch.tv/search", "term", query),
    }
}

/// A domain typed with stray spaces: the site of that name.
pub open spec fn autocomplete_plan(q: Seq<char>) -> Plan {
    Plan::Absolute { text: "https://"@ + without(q, ' ') }
}

/// The recipe of the site whose name is `query` without its spaces.
pub fn handle_autocomplete_url(query: &str) -> (recipe: Recipe)
    ensures
        recipe@ == autocomplete_plan(query@),
        buildable(recipe@),
{
    let name = without_spaces(query);
    Recipe::absolute(String::from_str("https://").concat(name.as_str()))
}

/// The web search that takes what nothing else matched.
pub open spec fn fallback_plan(q: Seq<char>) -> Plan {
    search("https://duckduckgo.com/?k1=-1"@, "q"@, q)
}

/// The recipe of a web search for `query`.
pub fn handle_fallback(query: &str) -> (recipe: Recipe)
    ensures
        recipe@ == fallback_plan(query@),
        buildable(recipe@),
{
    proof {
        reveal_strlit("https://duckduckgo.com/?k1=-1");
    }
    Recipe::search("https://duckduckgo.com/?k1=-1", "q", query)
}

} // verus!
