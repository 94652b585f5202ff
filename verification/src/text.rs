//! Text primitives on `&str`, specified over the sequence of characters that a
//! string views as. Positions are counted in characters, never in bytes.

use vstd::prelude::*;
use vstd::std_specs::iter::IteratorSpec;
use vstd::string::*;

verus! {

broadcast use vstd::string::group_string_axioms;

/// Whether `c` has the Unicode property White_Space.
pub uninterp spec fn white_space(c: char) -> bool;

/// The lowercase form of `s` as Unicode defines it.
pub uninterp spec fn lowercased(s: Seq<char>) -> Seq<char>;

/// `char::is_whitespace` of std. Nothing is claimed of which characters count as
/// whitespace, only that the answer depends on the character alone.
pub assume_specification[ char::is_whitespace ](c: char) -> (b: bool)
    ensures
        b == white_space(c),
;

/// `str::to_lowercase` of std. Nothing is claimed of the mapping, only that the
/// result depends on the text alone.
pub assume_specification[ str::to_lowercase ](s: &str) -> (r: String)
    ensures
        r@ == lowercased(s@),
;

/// `String::push` of std appends the given character to the end of the string.
pub assume_specification[ String::push ](s: &mut String, c: char)
    ensures
        final(s)@ == old(s)@.push(c),
;

/// Index of the first occurrence of `a` or of `b` in `s`; `s.len()` when neither occurs.
pub open spec fn first_of(s: Seq<char>, a: char, b: char) -> int
    decreases s.len(),
{
    if s.len() == 0 {
        0
    } else if s[0] == a || s[0] == b {
        0
    } else {
        1 + first_of(s.skip(1), a, b)
    }
}

/// Index of the first occurrence of `c` in `s`; `s.len()` when `c` does not occur.
pub open spec fn first(s: Seq<char>, c: char) -> int {
    first_of(s, c, c)
}

/// `s` with every occurrence of `c` taken out.
pub open spec fn without(s: Seq<char>, c: char) -> Seq<char> {
    s.filter(|x: char| x != c)
}

/// `s` after its leading whitespace.
pub open spec fn trim_start(s: Seq<char>) -> Seq<char>
    decreases s.len(),
{
    if s.len() > 0 && white_space(s[0]) {
        trim_start(s.skip(1))
    } else {
        s
    }
}

/// `s` before its trailing whitespace.
pub open spec fn trim_end(s: Seq<char>) -> Seq<char>
    decreases s.len(),
{
    if s.len() > 0 && white_space(s.last()) {
        trim_end(s.drop_last())
    } else {
        s
    }
}

/// `s` without leading and trailing whitespace.
pub open spec fn trimmed(s: Seq<char>) -> Seq<char> {
    trim_end(trim_start(s))
}

/// `first_of` lies within `0..=s.len()`, points at one of the two characters when it
/// is a position of `s`, and nothing before it is either of them.
pub proof fn lemma_first_of(s: Seq<char>, a: char, b: char)
    ensures
        0 <= first_of(s, a, b) <= s.len(),
        first_of(s, a, b) < s.len() ==> s[first_of(s, a, b)] == a || s[first_of(s, a, b)] == b,
        forall|j: int| 0 <= j < first_of(s, a, b) ==> s[j] != a && s[j] != b,
    decreases s.len(),
{
    if s.len() > 0 && s[0] != a && s[0] != b {
        let t = s.skip(1);
        lemma_first_of(t, a, b);
        assert forall|j: int| 0 <= j < first_of(s, a, b) implies s[j] != a && s[j] != b by {
            if j > 0 {
                assert(s[j] == t[j - 1]);
            }
        }
    }
}

/// The position `k` is `first_of` once nothing before it is one of the two
/// characters and `k` is the end of `s` or holds one of them.
pub proof fn lemma_first_of_is(s: Seq<char>, a: char, b: char, k: int)
    requires
        0 <= k <= s.len(),
        forall|j: int| 0 <= j < k ==> s[j] != a && s[j] != b,
        k < s.len() ==> s[k] == a || s[k] == b,
    ensures
        first_of(s, a, b) == k,
    decreases k,
{
    if k > 0 {
        let t = s.skip(1);
        assert forall|j: int| 0 <= j < k - 1 implies t[j] != a && t[j] != b by {
            assert(t[j] == s[j + 1]);
        }
        lemma_first_of_is(t, a, b, k - 1);
    }
}

/// `c` occurs in `s` exactly when `first` is a position of `s`.
pub proof fn lemma_first_contains(s: Seq<char>, c: char)
    ensures
        s.contains(c) <==> first(s, c) < s.len(),
        0 <= first(s, c) <= s.len(),
{
    lemma_first_of(s, c, c);
    if s.contains(c) {
        let j = choose|j: int| 0 <= j < s.len() && s[j] == c;
        if first(s, c) >= s.len() {
            assert(s[j] != c);
        }
    }
    if first(s, c) < s.len() {
        assert(s[first(s, c)] == c);
    }
}

/// Skipping `k` whitespace characters that open `s` is `trim_start`, once what
/// follows them is no whitespace.
pub proof fn lemma_trim_start_is(s: Seq<char>, k: int)
    requires
        0 <= k <= s.len(),
        forall|j: int| 0 <= j < k ==> white_space(s[j]),
        k < s.len() ==> !white_space(s[k]),
    ensures
        trim_start(s) == s.skip(k),
    decreases k,
{
    if k > 0 {
        let t = s.skip(1);
        assert forall|j: int| 0 <= j < k - 1 implies white_space(t[j]) by {
            assert(t[j] == s[j + 1]);
        }
        lemma_trim_start_is(t, k - 1);
        assert(t.skip(k - 1) == s.skip(k));
    } else {
        assert(s.skip(0) == s);
    }
}

/// Keeping the first `k` characters is `trim_end`, once all after them are
/// whitespace and the one before is not.
pub proof fn lemma_trim_end_is(s: Seq<char>, k: int)
    requires
        0 <= k <= s.len(),
        forall|j: int| k <= j < s.len() ==> white_space(s[j]),
        k > 0 ==> !white_space(s[k - 1]),
    ensures
        trim_end(s) == s.take(k),
    decreases s.len() - k,
{
    if k < s.len() {
        let t = s.drop_last();
        lemma_trim_end_is(t, k);
        assert(t.take(k) == s.take(k));
    } else {
        assert(s.take(k) == s);
    }
}

/// Whitespace at the end of a text does not change what is left after trimming.
pub proof fn lemma_trimmed_push(s: Seq<char>, c: char)
    requires
        white_space(c),
    ensures
        trimmed(s.push(c)) == trimmed(s),
    decreases s.len(),
{
    let t = s.push(c);
    if s.len() == 0 {
        assert(t.skip(1) == s);
    } else if white_space(s[0]) {
        assert(t.skip(1) == s.skip(1).push(c));
        lemma_trimmed_push(s.skip(1), c);
    } else {
        assert(t.drop_last() == s);
    }
}

/// Whitespace at the start of a text does not change what is left after trimming.
pub proof fn lemma_trimmed_prepend(s: Seq<char>, c: char)
    requires
        white_space(c),
    ensures
        trimmed(seq![c] + s) == trimmed(s),
{
    assert((seq![c] + s).skip(1) == s);
}

/// Position of the first `a` or `b` in `s`, if there is one.
pub fn find_either(s: &str, a: char, b: char) -> (r: Option<usize>)
    ensures
        match r {
            Some(i) => i == first_of(s@, a, b) && i < s@.len(),
            None => first_of(s@, a, b) == s@.len(),
        },
{
    let n: usize = s.unicode_len();
    let mut i: usize = 0;
    let chars = s.chars();
    for c in it: chars
        invariant
            it.seq() == s@,
            n == s@.len(),
            i == it.index(),
            forall|j: int| 0 <= j < i ==> s@[j] != a && s@[j] != b,
    {
        if c == a || c == b {
            proof {
                lemma_first_of_is(s@, a, b, i as int);
            }
            return Some(i);
        }
        i = i + 1;
    }
    proof {
        lemma_first_of_is(s@, a, b, s@.len() as int);
    }
    None
}

/// Position of the first `c` in `s`, if there is one.
pub fn find(s: &str, c: char) -> (r: Option<usize>)
    ensures
        match r {
            Some(i) => i == first(s@, c) && i < s@.len(),
            None => first(s@, c) == s@.len(),
        },
{
    find_either(s, c, c)
}

/// Whether `c` occurs in `s`.
pub fn contains(s: &str, c: char) -> (b: bool)
    ensures
        b == s@.contains(c),
{
    proof {
        lemma_first_contains(s@, c);
    }
    find(s, c).is_some()
}

/// Whether `s` begins with `p`.
pub fn starts_with(s: &str, p: &str) -> (b: bool)
    ensures
        b == p@.is_prefix_of(s@),
{
    let mut rest = p.chars();
    let chars = s.chars();
    for c in it: chars
        invariant
            it.seq() == s@,
            rest.obeys_prophetic_iter_laws(),
            it.index() <= p@.len(),
            rest.remaining() == p@.skip(it.index()),
            p@.take(it.index()) == s@.take(it.index()),
    {
        let ghost i = it.index();
        match rest.next() {
            None => {
                proof {
                    assert(p@.take(i) == p@);
                }
                return true;
            },
            Some(d) => {
                if c != d {
                    return false;
                }
                proof {
                    assert(p@.skip(i).drop_first() == p@.skip(i + 1));
                    assert(p@.take(i + 1) == p@.take(i).push(p@[i]));
                    assert(s@.take(i + 1) == s@.take(i).push(s@[i]));
                }
            },
        }
    }
    let done = rest.next();
    proof {
        assert(s@.take(s@.len() as int) == s@);
        if done is None {
            assert(p@.take(p@.len() as int) == p@);
        }
    }
    done.is_none()
}

/// What follows `p` in `s`, when `s` begins with `p`.
pub fn strip_prefix<'a>(s: &'a str, p: &str) -> (r: Option<&'a str>)
    ensures
        match r {
            Some(t) => p@.is_prefix_of(s@) && t@ == s@.skip(p@.len() as int),
            None => !p@.is_prefix_of(s@),
        },
{
    if starts_with(s, p) {
        let k: usize = p.unicode_len();
        let n: usize = s.unicode_len();
        Some(s.substring_char(k, n))
    } else {
        None
    }
}

/// Whether the last character of `s` is `c`.
pub fn ends_with(s: &str, c: char) -> (b: bool)
    ensures
        b == (s@.len() > 0 && s@.last() == c),
{
    let n: usize = s.unicode_len();
    if n == 0 {
        false
    } else {
        s.get_char(n - 1) == c
    }
}

/// Whether `a` and `b` hold the same characters.
pub fn equals(a: &str, b: &str) -> (same: bool)
    ensures
        same == (a@ == b@),
{
    let same: bool = starts_with(a, b) && a.unicode_len() == b.unicode_len();
    proof {
        if same {
            assert(a@.subrange(0, b@.len() as int) == a@);
        }
    }
    same
}

/// `s` without leading and trailing whitespace, as a slice of `s`.
pub fn trim(s: &str) -> (r: &str)
    ensures
        r@ == trimmed(s@),
{
    let n: usize = s.unicode_len();
    let mut start: usize = 0;
    let mut end: usize = 0;
    let mut seen: bool = false;
    let mut i: usize = 0;
    let chars = s.chars();
    for c in it: chars
        invariant
            it.seq() == s@,
            n == s@.len(),
            i == it.index(),
            !seen ==> start == 0 && end == 0 && forall|j: int| 0 <= j < i ==> white_space(s@[j]),
            seen ==> start < end <= i && !white_space(s@[start as int]) && !white_space(
                s@[end - 1],
            ),
            seen ==> forall|j: int| 0 <= j < start ==> white_space(s@[j]),
            seen ==> forall|j: int| end <= j < i ==> white_space(s@[j]),
    {
        if !c.is_whitespace() {
            if !seen {
                start = i;
                seen = true;
            }
            end = i + 1;
        }
        i = i + 1;
    }
    proof {
        let t = s@;
        if seen {
            lemma_trim_start_is(t, start as int);
            let u = t.skip(start as int);
            assert forall|j: int| end - start <= j < u.len() implies white_space(u[j]) by {
                assert(u[j] == t[j + start]);
            }
            lemma_trim_end_is(u, end - start);
            assert(u.take(end - start) == t.subrange(start as int, end as int));
        } else {
            lemma_trim_start_is(t, t.len() as int);
            assert(t.skip(t.len() as int) == t.subrange(0, 0));
        }
    }
    s.substring_char(start, end)
}

/// `s` with its spaces taken out.
pub fn without_spaces(s: &str) -> (r: String)
    ensures
        r@ == without(s@, ' '),
{
    let mut out = String::new();
    let chars = s.chars();
    for c in it: chars
        invariant
            it.seq() == s@,
            out@ == without(s@.take(it.index()), ' '),
    {
        proof {
            let i = it.index();
            assert(s@.take(i + 1).drop_last() == s@.take(i));
            reveal(Seq::filter);
        }
        if c != ' ' {
            out.push(c);
        }
    }
    proof {
        assert(s@.take(s@.len() as int) == s@);
    }
    out
}

} // verus!
