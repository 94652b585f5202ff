//! The rules in their order: keywords, prefixes, the domain heuristic, and the
//! web search that takes the rest.

use crate::builders::{
    autocomplete_plan, auspost_plan, booktopia_plan, core_plan, crates_plan, docker_hub_plan,
    docs_plan, fallback_plan, github_plan, handle_auspost, handle_autocomplete_url,
    handle_booktopia, handle_core, handle_crates, handle_docker_hub, handle_docs,
    handle_fallback, handle_github, handle_npm, handle_stackoverflow, handle_twitch,
    handle_urban_dictionary, handle_wikipedia, npm_plan, stackoverflow_plan, twitch_plan,
    urban_dictionary_plan, wikipedia_plan,
};
use crate::errors::Error;
use crate::recipe::{buildable, built, outcome, Plan, Recipe};
use crate::suffix::{known_suffix, suffix_known};
use crate::text::{contains, equals, lowercased, strip_prefix, trim, trimmed, without, without_spaces};
use vstd::prelude::*;
use vstd::string::*;

verus! {

/// The destinations that a prefix can name.
#[derive(Debug, Clone, Copy, PartialEq, Eq)]
pub enum Builder {
    Docs,
    GitHub,
    Wikipedia,
    StackOverflow,
    DockerHub,
    Crates,
    AusPost,
    UrbanDictionary,
    Booktopia,
    CoreElectronics,
    Npm,
    Twitch,
}

impl Builder {
    /// The plan of this destination for what follows the prefix.
    pub open spec fn plan(self, rest: Seq<char>) -> Plan {
        match self {
            Builder::Docs => docs_plan(rest),
            Builder::GitHub => github_plan(rest),
            Builder::Wikipedia => wikipedia_plan(rest),
            Builder::StackOverflow => stackoverflow_plan(rest),
            Builder::DockerHub => docker_hub_plan(rest),
            Builder::Crates => crates_plan(rest),
            Builder::AusPost => auspost_plan(rest),
            Builder::UrbanDictionary => urban_dictionary_plan(rest),
            Builder::Booktopia => booktopia_plan(rest),
            Builder::CoreElectronics => core_plan(rest),
            Builder::Npm => npm_plan(rest),
            Builder::Twitch => twitch_plan(rest),
        }
    }

    /// The recipe of this destination for what follows the prefix.
    pub fn recipe(self, rest: &str) -> (recipe: Recipe)
        ensures
            recipe@ == self.plan(rest@),
            buildable(recipe@),
    {
        match self {
            Builder::Docs => handle_docs(rest),
            Builder::GitHub => handle_github(rest),
            Builder::Wikipedia => handle_wikipedia(rest),
            Builder::StackOverflow => handle_stackoverflow(rest),
            Builder::DockerHub => handle_docker_hub(rest),
            Builder::Crates => handle_crates(rest),
            Builder::AusPost => handle_auspost(rest),
            Builder::UrbanDictionary => handle_urban_dictionary(rest),
            Builder::Booktopia => handle_booktopia(rest),
            Builder::CoreElectronics => handle_core(rest),
            Builder::Npm => handle_npm(rest),
            Builder::Twitch => handle_twitch(rest),
        }
    }
}

/// A keyword and the page it stands for.
#[derive(Debug, Clone, Copy, PartialEq, Eq)]
pub struct Redirect {
    pub keyword: &'static str,
    pub target: &'static str,
}

/// A prefix and the destination that takes what follows it.
#[derive(Debug, Clone, Copy, PartialEq, Eq)]
pub struct PrefixRule {
    pub prefix: &'static str,
    pub builder: Builder,
}

impl View for Redirect {
    type V = (Seq<char>, Seq<char>);

    open spec fn view(&self) -> (Seq<char>, Seq<char>) {
        (self.keyword@, self.target@)
    }
}

impl View for PrefixRule {
    type V = (Seq<char>, Builder);

    open spec fn view(&self) -> (Seq<char>, Builder) {
        (self.prefix@, self.builder)
    }
}

/// The keywords, each with its page.
pub open spec fn static_table() -> Seq<(Seq<char>, Seq<char>)> {
    seq![
        ("twir"@, "https://this-week-in-rust.org"@),
        ("abc"@, "https://www.abc.net.au/news"@),
        ("had"@, "https://hackaday.com/blog/"@),
        ("sd"@, "https://slashdot.org"@),
        ("/."@, "https://slashdot.org"@),
        ("sth"@, "https://www.servethehome.com"@),
        ("x"@, "https://xkcd.com"@),
        (
            "weather"@,
            "https://beta.bom.gov.au/poi-location/australia/australian-capital-territory/australian-capital-territory/nsw_pt027-canberra"@,
        ),
        ("gh"@, "https://github.com"@),
        ("bfio"@, "https://bushfire.io"@),
        ("ip"@, "https://www.cloudflare.com/cdn-cgi/trace"@),
        ("core"@, "https://www.core-electronics.com.au"@),
        ("bt"@, "https://www.booktopia.com.au/"@),
        ("speed"@, "https://speed.cloudflare.com/"@),
        ("ce"@, "https://www.carexpert.com.au/car-news"@),
        ("t"@, "https://www.twitch.tv/"@),
    ]
}

/// The prefixes in the order in which they are tried, each with its destination.
pub open spec fn prefix_table() -> Seq<(Seq<char>, Builder)> {
    seq![
        ("docs "@, Builder::Docs),
        ("docs/"@, Builder::Docs),
        ("gh "@, Builder::GitHub),
        ("w "@, Builder::Wikipedia),
        ("so "@, Builder::StackOverflow),
        ("dh "@, Builder::DockerHub),
        ("crates "@, Builder::Crates),
        ("ap "@, Builder::AusPost),
        ("ud "@, Builder::UrbanDictionary),
        ("bt "@, Builder::Booktopia),
        ("core "@, Builder::CoreElectronics),
        ("npm "@, Builder::Npm),
        ("t "@, Builder::Twitch),
    ]
}

/// The page of the first entry of `table` whose keyword is `key`.
pub open spec fn lookup(table: Seq<(Seq<char>, Seq<char>)>, key: Seq<char>) -> Option<Seq<char>>
    decreases table.len(),
{
    if table.len() == 0 {
        None
    } else if table[0].0 == key {
        Some(table[0].1)
    } else {
        lookup(table.skip(1), key)
    }
}

/// The first rule of `table` whose prefix opens `q`.
pub open spec fn first_rule(table: Seq<(Seq<char>, Builder)>, q: Seq<char>) -> Option<
    (Seq<char>, Builder),
>
    decreases table.len(),
{
    if table.len() == 0 {
        None
    } else if table[0].0.is_prefix_of(q) {
        Some(table[0])
    } else {
        first_rule(table.skip(1), q)
    }
}

/// The plan that the first matching prefix rule gives for `q`.
pub open spec fn prefix_route(q: Seq<char>) -> Option<Plan> {
    match first_rule(prefix_table(), q) {
        Some(rule) => Some(rule.1.plan(q.skip(rule.0.len() as int))),
        None => None,
    }
}

/// The domain heuristic applies to a text with a space in it that, without
/// its spaces, is a domain under a listed public suffix.
pub open spec fn heuristic_applies(q: Seq<char>) -> bool {
    q.contains(' ') && known_suffix(without(q, ' ')) == Some(true)
}

/// The plan for a query that is no keyword and opens with no prefix, given
/// what the suffix list says of the query without its spaces.
pub open spec fn unprefixed_plan(q: Seq<char>, known: Option<bool>) -> Plan {
    if q.contains(' ') && known == Some(true) {
        autocomplete_plan(q)
    } else {
        fallback_plan(q)
    }
}

/// The plan for a query: by keyword, else by prefix, else a bare domain, else
/// the web search. All of it is decided on the query without the whitespace
/// around it.
pub open spec fn route(query: Seq<char>) -> Plan {
    let q = trimmed(query);
    match lookup(static_table(), lowercased(q)) {
        Some(target) => Plan::Absolute { text: target },
        None => match prefix_route(q) {
            Some(plan) => plan,
            None => unprefixed_plan(q, known_suffix(without(q, ' '))),
        },
    }
}

/// The keywords, each with its page.
pub fn static_redirects() -> (table: Vec<Redirect>)
    ensures
        table@.map_values(|r: Redirect| r@) == static_table(),
{
    let table: Vec<Redirect> = vec![
        Redirect { keyword: "twir", target: "https://this-week-in-rust.org" },
        Redirect { keyword: "abc", target: "https://www.abc.net.au/news" },
        Redirect { keyword: "had", target: "https://hackaday.com/blog/" },
        Redirect { keyword: "sd", target: "https://slashdot.org" },
        Redirect { keyword: "/.", target: "https://slashdot.org" },
        Redirect { keyword: "sth", target: "https://www.servethehome.com" },
        Redirect { keyword: "x", target: "https://xkcd.com" },
        Redirect {
            keyword: "weather",
            target: "https://beta.bom.gov.au/poi-location/australia/australian-capital-territory/australian-capital-territory/nsw_pt027-canberra",
        },
        Redirect { keyword: "gh", target: "https://github.com" },
        Redirect { keyword: "bfio", target: "https://bushfire.io" },
        Redirect { keyword: "ip", target: "https://www.cloudflare.com/cdn-cgi/trace" },
        Redirect { keyword: "core", target: "https://www.core-electronics.com.au" },
        Redirect { keyword: "bt", target: "https://www.booktopia.com.au/" },
        Redirect { keyword: "speed", target: "https://speed.cloudflare.com/" },
        Redirect { keyword: "ce", target: "https://www.carexpert.com.au/car-news" },
        Redirect { keyword: "t", target: "https://www.twitch.tv/" },
    ];
    table
}

/// The prefixes in the order in which they are tried, each with its destination.
pub fn prefix_rules() -> (rules: Vec<PrefixRule>)
    ensures
        rules@.map_values(|r: PrefixRule| r@) == prefix_table(),
{
    let rules: Vec<PrefixRule> = vec![
        PrefixRule { prefix: "docs ", builder: Builder::Docs },
        PrefixRule { prefix: "docs/", builder: Builder::Docs },
        PrefixRule { prefix: "gh ", builder: Builder::GitHub },
        PrefixRule { prefix: "w ", builder: Builder::Wikipedia },
        PrefixRule { prefix: "so ", builder: Builder::StackOverflow },
        PrefixRule { prefix: "dh ", builder: Builder::DockerHub },
        PrefixRule { prefix: "crates ", builder: Builder::Crates },
        PrefixRule { prefix: "ap ", builder: Builder::AusPost },
        PrefixRule { prefix: "ud ", builder: Builder::UrbanDictionary },
        PrefixRule { prefix: "bt ", builder: Builder::Booktopia },
        PrefixRule { prefix: "core ", builder: Builder::CoreElectronics },
        PrefixRule { prefix: "npm ", builder: Builder::Npm },
        PrefixRule { prefix: "t ", builder: Builder::Twitch },
    ];
    rules
}

/// The page that `key` stands for, where `key` is a keyword.
pub fn lookup_keyword(key: &str) -> (target: Option<&'static str>)
    ensures
        match target {
            Some(url) => lookup(static_table(), key@) == Some(url@),
            None => lookup(static_table(), key@) is None,
        },
{
    let table = static_redirects();
    let ghost all = static_table();
    let mut i: usize = 0;
    proof {
        assert(all.skip(0) == all);
    }
    while i < table.len()
        invariant
            i <= table.len(),
            all == static_table(),
            table@.map_values(|r: Redirect| r@) == all,
            lookup(all.skip(i as int), key@) == lookup(all, key@),
        decreases table.len() - i,
    {
        let entry = &table[i];
        proof {
            assert(all.skip(i as int).skip(1) == all.skip(i + 1));
        }
        if equals(key, entry.keyword) {
            return Some(entry.target);
        }
        i = i + 1;
    }
    None
}

/// The recipe of the first prefix rule that `query` opens with, for what
/// follows the prefix.
pub fn dispatch_prefix(query: &str) -> (found: Option<Recipe>)
    ensures
        match found {
            Some(recipe) => prefix_route(query@) == Some(recipe@) && buildable(recipe@),
            None => prefix_route(query@) is None,
        },
{
    let rules = prefix_rules();
    let ghost all = prefix_table();
    let mut i: usize = 0;
    proof {
        assert(all.skip(0) == all);
    }
    while i < rules.len()
        invariant
            i <= rules.len(),
            all == prefix_table(),
            rules@.map_values(|r: PrefixRule| r@) == all,
            first_rule(all.skip(i as int), query@) == first_rule(all, query@),
        decreases rules.len() - i,
    {
        let rule = &rules[i];
        proof {
            assert(all.skip(i as int).skip(1) == all.skip(i + 1));
        }
        if let Some(rest) = strip_prefix(query, rule.prefix) {
            return Some(rule.builder.recipe(rest));
        }
        i = i + 1;
    }
    None
}

/// The recipe of the page that `query` stands for, letter case aside, where it
/// is a keyword.
pub fn handle_static_redirects(query: &str) -> (found: Option<Recipe>)
    ensures
        match found {
            Some(recipe) => recipe@ is Absolute && lookup(static_table(), lowercased(query@))
                == Some(recipe@->text) && buildable(recipe@),
            None => lookup(static_table(), lowercased(query@)) is None,
        },
{
    let key = query.to_lowercase();
    match lookup_keyword(key.as_str()) {
        Some(target) => Some(Recipe::absolute(String::from_str(target))),
        None => None,
    }
}

/// The recipe for a query that is no keyword and opens with no prefix:
/// `known` is what the suffix list says of the query without its spaces.
pub fn handle_unprefixed(query: &str, known: Option<bool>) -> (recipe: Recipe)
    ensures
        recipe@ == unprefixed_plan(query@, known),
        buildable(recipe@),
{
    let fires: bool = match known {
        Some(listed) => listed && contains(query, ' '),
        None => false,
    };
    if fires {
        handle_autocomplete_url(query)
    } else {
        handle_fallback(query)
    }
}

/// The recipe of the URL that `query` stands for.
pub fn resolve(query: &str) -> (recipe: Recipe)
    ensures
        recipe@ == route(query@),
        buildable(recipe@),
{
    let q = trim(query);
    if let Some(recipe) = handle_static_redirects(q) {
        return recipe;
    }
    if let Some(recipe) = dispatch_prefix(q) {
        return recipe;
    }
    let known: Option<bool> = if contains(q, ' ') {
        let name = without_spaces(q);
        suffix_known(name.as_str())
    } else {
        None
    };
    handle_unprefixed(q, known)
}

/// The URL that `query` stands for, or the text that is no valid URL.
pub fn query_to_url(query: &str) -> (res: Result<String, Error>)
    ensures
        outcome(res) == built(route(query@)),
{
    resolve(query).build()
}

} // verus!
