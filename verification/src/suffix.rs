//! The public suffix list that the `psl` crate compiles in.

use psl::{List, Psl};
use vstd::prelude::*;

verus! {

/// Whether the public suffix of the registrable domain of `name` is in the
/// list; `None` where `name` has no registrable domain.
pub uninterp spec fn known_suffix(name: Seq<char>) -> Option<bool>;

/// `Psl::domain` on the list that psl compiles in, given the bytes of `name`,
/// then `Domain::suffix` and `Suffix::is_known` on what it found. The contract
/// claims that the answer depends on `name` alone.
#[verifier::external_body]
pub(crate) fn suffix_known(name: &str) -> (known: Option<bool>)
    ensures
        known == known_suffix(name@),
{
    match List.domain(name.as_bytes()) {
        Some(domain) => Some(domain.suffix().is_known()),
        None => None,
    }
}

} // verus!
