//! What holds of every query.

use crate::builders::{docker_hub_plan, docs_plan, fallback_plan, github_plan};
use crate::recipe::{built, path, path2, resolved, search, Plan};
use crate::resolver::{
    first_rule, heuristic_applies, lookup, prefix_route, prefix_table, route, static_table,
    Builder,
};
use crate::text::{
    first, first_of, lemma_first_of, lemma_first_of_is, lemma_trimmed_prepend,
    lemma_trimmed_push, lowercased, trimmed, white_space, without,
};
use crate::urls::{joined, parsed};
use vstd::prelude::*;

verus! {

/// The keywords of the table differ from one another.
pub proof fn lemma_keywords_differ(i: int, j: int)
    requires
        0 <= i < j < static_table().len(),
    ensures
        static_table()[i].0 != static_table()[j].0,
{
    reveal_strlit("twir");
    reveal_strlit("abc");
    reveal_strlit("had");
    reveal_strlit("sd");
    reveal_strlit("/.");
    reveal_strlit("sth");
    reveal_strlit("x");
    reveal_strlit("weather");
    reveal_strlit("gh");
    reveal_strlit("bfio");
    reveal_strlit("ip");
    reveal_strlit("core");
    reveal_strlit("bt");
    reveal_strlit("speed");
    reveal_strlit("ce");
    reveal_strlit("t");
    let a = static_table()[i].0;
    let b = static_table()[j].0;
    if a.len() == b.len() {
        assert(a[0] != b[0] || a[1] != b[1]);
    }
}

/// Looking up the keyword of an entry finds that entry's page, where no
/// earlier entry has the same keyword.
pub proof fn lemma_lookup_at(table: Seq<(Seq<char>, Seq<char>)>, i: int)
    requires
        0 <= i < table.len(),
        forall|j: int| 0 <= j < i ==> (#[trigger] table[j]).0 != table[i].0,
    ensures
        lookup(table, table[i].0) == Some(table[i].1),
    decreases i,
{
    if i > 0 {
        let rest = table.skip(1);
        assert(rest[i - 1] == table[i]);
        assert forall|j: int| 0 <= j < i - 1 implies (#[trigger] rest[j]).0 != rest[i - 1].0 by {
            assert(rest[j] == table[j + 1]);
        }
        lemma_lookup_at(rest, i - 1);
    }
}

/// A query that is a keyword, whatever its letter case and the whitespace
/// around it, goes to the page of that keyword.
pub proof fn lemma_keyword_goes_to_its_page(query: Seq<char>, i: int)
    requires
        0 <= i < static_table().len(),
        lowercased(trimmed(query)) == static_table()[i].0,
    ensures
        route(query) == (Plan::Absolute { text: static_table()[i].1 }),
{
    assert forall|j: int| 0 <= j < i implies (#[trigger] static_table()[j]).0 != static_table()[i].0 by {
        lemma_keywords_differ(j, i);
    }
    lemma_lookup_at(static_table(), i);
}

/// Whitespace before or after a query does not change where it goes.
pub proof fn lemma_outer_whitespace_is_ignored(query: Seq<char>, c: char)
    requires
        white_space(c),
    ensures
        route(query.push(c)) == route(query),
        route(seq![c] + query) == route(query),
{
    lemma_trimmed_push(query, c);
    lemma_trimmed_prepend(query, c);
}

/// The prefixes of the table differ from one another.
pub proof fn lemma_prefixes_differ(i: int, j: int)
    requires
        0 <= i < j < prefix_table().len(),
    ensures
        prefix_table()[i].0 != prefix_table()[j].0,
{
    reveal_prefixes();
    let a = prefix_table()[i].0;
    let b = prefix_table()[j].0;
    if a.len() == b.len() {
        assert(a[0] != b[0] || a[4] != b[4]);
    }
}

/// Each prefix of the table is a word closed by a space or a `/`, the only
/// one of either in it.
pub proof fn lemma_prefix_shape(i: int)
    requires
        0 <= i < prefix_table().len(),
    ensures
        prefix_table()[i].0.len() >= 2,
        first_of(prefix_table()[i].0, ' ', '/') == prefix_table()[i].0.len() - 1,
{
    reveal_prefixes();
    let p = prefix_table()[i].0;
    lemma_first_of_is(p, ' ', '/', p.len() - 1);
}

proof fn reveal_prefixes()
    ensures
        "docs "@ == seq!['d', 'o', 'c', 's', ' '],
        "docs/"@ == seq!['d', 'o', 'c', 's', '/'],
        "gh "@ == seq!['g', 'h', ' '],
        "w "@ == seq!['w', ' '],
        "so "@ == seq!['s', 'o', ' '],
        "dh "@ == seq!['d', 'h', ' '],
        "crates "@ == seq!['c', 'r', 'a', 't', 'e', 's', ' '],
        "ap "@ == seq!['a', 'p', ' '],
        "ud "@ == seq!['u', 'd', ' '],
        "bt "@ == seq!['b', 't', ' '],
        "core "@ == seq!['c', 'o', 'r', 'e', ' '],
        "npm "@ == seq!['n', 'p', 'm', ' '],
        "t "@ == seq!['t', ' '],
{
    reveal_strlit("docs ");
    reveal_strlit("docs/");
    reveal_strlit("gh ");
    reveal_strlit("w ");
    reveal_strlit("so ");
    reveal_strlit("dh ");
    reveal_strlit("crates ");
    reveal_strlit("ap ");
    reveal_strlit("ud ");
    reveal_strlit("bt ");
    reveal_strlit("core ");
    reveal_strlit("npm ");
    reveal_strlit("t ");
}

/// The first rule whose prefix opens `q` is the one at `i`, where none before does.
pub proof fn lemma_first_rule_at(table: Seq<(Seq<char>, Builder)>, q: Seq<char>, i: int)
    requires
        0 <= i < table.len(),
        forall|j: int| 0 <= j < i ==> !(#[trigger] table[j]).0.is_prefix_of(q),
        table[i].0.is_prefix_of(q),
    ensures
        first_rule(table, q) == Some(table[i]),
    decreases i,
{
    if i > 0 {
        let rest = table.skip(1);
        assert(rest[i - 1] == table[i]);
        assert forall|j: int| 0 <= j < i - 1 implies !(#[trigger] rest[j]).0.is_prefix_of(q) by {
            assert(rest[j] == table[j + 1]);
        }
        lemma_first_rule_at(rest, q, i - 1);
    }
}

/// A text that opens with a word closed by a space or a `/` has its first
/// space or `/` where that word ends.
pub proof fn lemma_prefix_ends_at_first_break(p: Seq<char>, q: Seq<char>)
    requires
        p.len() >= 1,
        first_of(p, ' ', '/') == p.len() - 1,
        p.is_prefix_of(q),
    ensures
        first_of(q, ' ', '/') == p.len() - 1,
{
    lemma_first_of(p, ' ', '/');
    assert forall|j: int| 0 <= j < p.len() implies q[j] == p[j] by {
        assert(q.subrange(0, p.len() as int)[j] == q[j]);
    }
    lemma_first_of_is(q, ' ', '/', p.len() - 1);
}

/// A query opens with one prefix of the table at most: the rule of that
/// prefix is the first that matches.
pub proof fn lemma_one_prefix(q: Seq<char>, i: int)
    requires
        0 <= i < prefix_table().len(),
        prefix_table()[i].0.is_prefix_of(q),
    ensures
        first_rule(prefix_table(), q) == Some(prefix_table()[i]),
        prefix_route(q) == Some(
            prefix_table()[i].1.plan(q.skip(prefix_table()[i].0.len() as int)),
        ),
{
    let table = prefix_table();
    let p = table[i].0;
    lemma_prefix_shape(i);
    lemma_prefix_ends_at_first_break(p, q);
    assert forall|j: int| 0 <= j < i implies !(#[trigger] table[j]).0.is_prefix_of(q) by {
        let o = table[j].0;
        if o.is_prefix_of(q) {
            lemma_prefix_shape(j);
            lemma_prefix_ends_at_first_break(o, q);
            assert(o == q.subrange(0, o.len() as int));
            assert(p == q.subrange(0, p.len() as int));
            lemma_prefixes_differ(j, i);
        }
    }
    lemma_first_rule_at(table, q, i);
}

/// A query that is no keyword and opens with a prefix of the table goes to
/// the destination of that prefix, with what follows the prefix, be it empty;
/// neither the domain heuristic nor the web search has a say.
pub proof fn lemma_prefix_takes_the_query(query: Seq<char>, i: int)
    requires
        0 <= i < prefix_table().len(),
        lookup(static_table(), lowercased(trimmed(query))) is None,
        prefix_table()[i].0.is_prefix_of(trimmed(query)),
    ensures
        route(query) == prefix_table()[i].1.plan(
            trimmed(query).skip(prefix_table()[i].0.len() as int),
        ),
{
    lemma_one_prefix(trimmed(query), i);
}

/// `docs ` and `docs/` open the same destination: what follows either goes
/// to the documentation builder.
pub proof fn lemma_docs_prefixes_agree(rest: Seq<char>)
    ensures
        prefix_route("docs "@ + rest) == Some(docs_plan(rest)),
        prefix_route("docs/"@ + rest) == Some(docs_plan(rest)),
{
    reveal_prefixes();
    let spaced = "docs "@ + rest;
    let slashed = "docs/"@ + rest;
    assert(spaced.subrange(0, 5) == "docs "@);
    assert(slashed.subrange(0, 5) == "docs/"@);
    assert(spaced.skip(5) == rest);
    assert(slashed.skip(5) == rest);
    lemma_one_prefix(spaced, 0);
    lemma_one_prefix(slashed, 1);
}

/// `docs std` and `docs/std` both lead to the documentation of the standard
/// library, not to the host of the packages.
pub proof fn lemma_docs_of_std()
    ensures
        prefix_route("docs std"@) == Some(
            Plan::Absolute { text: "https://doc.rust-lang.org/stable/std/"@ },
        ),
        prefix_route("docs/std"@) == prefix_route("docs std"@),
{
    reveal_prefixes();
    reveal_strlit("std");
    reveal_strlit("docs std");
    reveal_strlit("docs/std");
    assert("docs std"@ == "docs "@ + "std"@);
    assert("docs/std"@ == "docs/"@ + "std"@);
    lemma_docs_prefixes_agree("std"@);
}

/// A package and a version give the same documentation page whether `/` or
/// `@` stands between them.
pub proof fn lemma_docs_separators_agree(package: Seq<char>, version: Seq<char>)
    requires
        !package.contains('/'),
        !package.contains('@'),
        version.len() > 0,
    ensures
        docs_plan(package + seq!['/'] + version) == path(
            "https://docs.rs/"@,
            package + seq!['/'] + version,
        ),
        docs_plan(package + seq!['@'] + version) == docs_plan(package + seq!['/'] + version),
{
    reveal_strlit("std");
    let n = package.len() as int;
    let slashed = package + seq!['/'] + version;
    let at = package + seq!['@'] + version;
    assert(slashed[n] == '/');
    assert(at[n] == '@');
    assert forall|j: int| 0 <= j < n implies slashed[j] != '/' && slashed[j] != '@' by {
        assert(slashed[j] == package[j]);
        assert(package.contains(package[j]));
    }
    assert forall|j: int| 0 <= j < n implies at[j] != '/' && at[j] != '@' by {
        assert(at[j] == package[j]);
        assert(package.contains(package[j]));
    }
    lemma_first_of_is(slashed, '/', '@', n);
    lemma_first_of_is(at, '/', '@', n);
    assert(slashed.update(n, '/') == slashed);
    assert(at.update(n, '/') == slashed);
    if slashed == "std"@ {
        assert("std"@[n] == '/');
    }
    if at == "std"@ {
        assert("std"@[n] == '@');
    }
}

/// Docker Hub: a name without `/` is an official image after `r/`, after `/`
/// and after `_/` alike, and is searched for when it stands alone.
pub proof fn lemma_official_image(name: Seq<char>)
    requires
        !name.contains('/'),
    ensures
        docker_hub_plan("r/"@ + name) == path2("https://hub.docker.com/"@, "_/"@, name),
        docker_hub_plan("/"@ + name) == path2("https://hub.docker.com/"@, "_/"@, name),
        docker_hub_plan("_/"@ + name) == path2("https://hub.docker.com/"@, "_/"@, name),
        docker_hub_plan(name) == search("https://hub.docker.com/search"@, "q"@, name),
{
    reveal_strlit("r/");
    reveal_strlit("/");
    reveal_strlit("_/");
    let a = "r/"@ + name;
    let b = "/"@ + name;
    let c = "_/"@ + name;
    assert(a.subrange(0, 2) == "r/"@);
    assert(a.skip(2) == name);
    assert(b.subrange(0, 1) == "/"@);
    assert(b.skip(1) == name);
    assert(b[0] == '/');
    if "r/"@.is_prefix_of(b) {
        assert(b.subrange(0, 2)[0] == '/');
    }
    assert(c.subrange(0, 2) == "_/"@);
    assert(c.skip(2) == name);
    assert(c.subrange(0, 2) != "r/"@) by {
        assert(c.subrange(0, 2)[0] == '_');
    }
    assert(c.subrange(0, 1) != "/"@) by {
        assert(c.subrange(0, 1)[0] == '_');
    }
    if "r/"@.is_prefix_of(name) {
        assert(name.subrange(0, 2)[1] == '/');
        assert(name.contains(name[1]));
    }
    if "/"@.is_prefix_of(name) {
        assert(name.subrange(0, 1)[0] == '/');
        assert(name.contains(name[0]));
    }
    if "_/"@.is_prefix_of(name) {
        assert(name.subrange(0, 2)[1] == '/');
        assert(name.contains(name[1]));
    }
}

/// Docker Hub: a repository keeps its namespace, with `r/` before it or without.
pub proof fn lemma_namespace_is_kept(repository: Seq<char>)
    requires
        repository.contains('/'),
        !"r/"@.is_prefix_of(repository),
        !"/"@.is_prefix_of(repository),
        !"_/"@.is_prefix_of(repository),
    ensures
        docker_hub_plan(repository) == path2("https://hub.docker.com/"@, "r/"@, repository),
        docker_hub_plan("r/"@ + repository) == docker_hub_plan(repository),
{
    reveal_strlit("r/");
    let a = "r/"@ + repository;
    assert(a.subrange(0, 2) == "r/"@);
    assert(a.skip(2) == repository);
}

/// What the GitHub builder sees in a repository followed by a space, a mark
/// and a number: no user, a `/`, the first space behind the repository, and
/// the mark behind that space.
proof fn lemma_marked_number(repository: Seq<char>, mark: char, number: Seq<char>)
    requires
        repository.contains('/'),
        !repository.contains(' '),
        !"@"@.is_prefix_of(repository),
        !"u/"@.is_prefix_of(repository),
    ensures
        ({
            let q = repository + seq![' ', mark] + number;
            let n = repository.len() as int;
            &&& !"@"@.is_prefix_of(q)
            &&& !"u/"@.is_prefix_of(q)
            &&& q.contains('/')
            &&& first(q, ' ') == n
            &&& q.take(n) == repository
            &&& q.skip(n + 1).len() > 0
            &&& q.skip(n + 1)[0] == mark
            &&& q.skip(n + 2) == number
        }),
{
    reveal_strlit("@");
    reveal_strlit("u/");
    let q = repository + seq![' ', mark] + number;
    let n = repository.len() as int;
    let k = choose|k: int| 0 <= k < n && repository[k] == '/';
    assert(q[k] == '/');
    assert forall|j: int| 0 <= j < n implies q[j] != ' ' by {
        assert(repository.contains(repository[j]));
    }
    assert(q[n] == ' ');
    lemma_first_of_is(q, ' ', ' ', n);
    if "@"@.is_prefix_of(q) {
        assert(q.subrange(0, 1)[0] == '@');
        assert(repository.subrange(0, 1) == "@"@);
    }
    if "u/"@.is_prefix_of(q) {
        assert(q.subrange(0, 2)[0] == 'u');
        assert(q.subrange(0, 2)[1] == '/');
        assert(repository.subrange(0, 2) == "u/"@);
    }
}

/// GitHub: a repository followed by a space and `#n` is the issue `n` of it;
/// followed by a space and `!n`, the pull request `n`.
pub proof fn lemma_issue_or_pull_request(repository: Seq<char>, number: Seq<char>)
    requires
        repository.contains('/'),
        !repository.contains(' '),
        !"@"@.is_prefix_of(repository),
        !"u/"@.is_prefix_of(repository),
    ensures
        github_plan(repository + " #"@ + number) == path(
            "https://github.com/"@,
            repository + "/issues/"@ + number,
        ),
        github_plan(repository + " !"@ + number) == path(
            "https://github.com/"@,
            repository + "/pull/"@ + number,
        ),
{
    reveal_strlit(" #");
    reveal_strlit(" !");
    reveal_strlit("#");
    reveal_strlit("!");
    let n = repository.len() as int;
    let issue = repository + " #"@ + number;
    let pull = repository + " !"@ + number;
    assert(" #"@ == seq![' ', '#']);
    assert(" !"@ == seq![' ', '!']);
    lemma_marked_number(repository, '#', number);
    lemma_marked_number(repository, '!', number);
    assert(issue.skip(n + 1).subrange(0, 1) == "#"@);
    assert(pull.skip(n + 1).subrange(0, 1) == "!"@);
    if "#"@.is_prefix_of(pull.skip(n + 1)) {
        assert(pull.skip(n + 1).subrange(0, 1)[0] == '!');
    }
}

/// A query that is no keyword and opens with no prefix goes to the web
/// search, unless the domain heuristic takes it; the search gets the whole
/// query, trimmed, as its one parameter.
pub proof fn lemma_search_takes_the_rest(query: Seq<char>)
    requires
        lookup(static_table(), lowercased(trimmed(query))) is None,
        prefix_route(trimmed(query)) is None,
        !heuristic_applies(trimmed(query)),
    ensures
        route(query) == search("https://duckduckgo.com/?k1=-1"@, "q"@, trimmed(query)),
{
}

/// A query that is no keyword and opens with no prefix is taken for a
/// domain where the heuristic applies, and only there.
pub proof fn lemma_domain_heuristic(query: Seq<char>)
    requires
        lookup(static_table(), lowercased(trimmed(query))) is None,
        prefix_route(trimmed(query)) is None,
    ensures
        heuristic_applies(trimmed(query)) ==> route(query) == (Plan::Absolute {
            text: "https://"@ + without(trimmed(query), ' '),
        }),
        !heuristic_applies(trimmed(query)) ==> route(query) == fallback_plan(trimmed(query)),
        !trimmed(query).contains(' ') ==> route(query) == fallback_plan(trimmed(query)),
{
}

/// Where references cannot all be resolved, the one that is named is one of them.
pub proof fn lemma_refused_reference_is_listed(url: Seq<char>, references: Seq<Seq<char>>)
    ensures
        resolved(url, references) matches Err(refused) ==> references.contains(refused),
    decreases references.len(),
{
    if references.len() > 0 {
        match joined(url, references[0]) {
            Some(next) => {
                let rest = references.skip(1);
                lemma_refused_reference_is_listed(next, rest);
                if let Err(refused) = resolved(next, rest) {
                    let k = choose|k: int| 0 <= k < rest.len() && rest[k] == refused;
                    assert(references[k + 1] == refused);
                }
            },
            None => {
                assert(references.contains(references[0]));
            },
        }
    }
}

/// A build that fails names a text of its plan: the URL, the base, one of the
/// references, or the endpoint.
pub proof fn lemma_error_names_a_text_of_the_plan(plan: Plan)
    ensures
        built(plan) matches Err(refused) ==> match plan {
            Plan::Absolute { text } => refused == text,
            Plan::Path { base, references } => refused == base || references.contains(refused),
            Plan::Search { endpoint, .. } => refused == endpoint,
        },
{
    if let Plan::Path { base, references } = plan {
        if let Some(url) = parsed(base) {
            lemma_refused_reference_is_listed(url, references);
        }
    }
}

} // verus!
