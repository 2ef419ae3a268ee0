//! The two ways in which a value that arrives in pieces is put together:
//! what was given first stays, and texts are appended in their order.

use crate::error::opt_text;
use vstd::prelude::*;

verus! {

/// Of two strings the one that was there first: `current` unless it is
/// empty.
pub open spec fn first_text(current: Seq<char>, next: Seq<char>) -> Seq<char> {
    if current.len() > 0 {
        current
    } else {
        next
    }
}

/// Of two optional values the one that was there first.
pub open spec fn first_some<A>(current: Option<A>, next: Option<A>) -> Option<A> {
    if current is Some {
        current
    } else {
        next
    }
}

/// Of two optional values the one that came last.
pub open spec fn last_some<A>(current: Option<A>, next: Option<A>) -> Option<A> {
    if next is Some {
        next
    } else {
        current
    }
}

/// Two optional texts one after the other; a missing one adds nothing.
pub open spec fn appended(current: Option<Seq<char>>, next: Option<Seq<char>>) -> Option<
    Seq<char>,
> {
    match (current, next) {
        (Some(a), Some(b)) => Some(a + b),
        (Some(a), None) => Some(a),
        (None, b) => b,
    }
}

/// A copy of an optional string.
pub fn copy_optional_text(s: &Option<String>) -> (r: Option<String>)
    ensures
        opt_text(r) == opt_text(*s),
{
    match s {
        Some(s) => Some(s.clone()),
        None => None,
    }
}

/// Puts two optional texts one after the other.
pub fn append_optional(current: &Option<String>, next: &Option<String>) -> (r: Option<String>)
    ensures
        opt_text(r) == appended(opt_text(*current), opt_text(*next)),
{
    match current {
        Some(a) => match next {
            Some(b) => Some(a.clone().concat(b.as_str())),
            None => Some(a.clone()),
        },
        None => copy_optional_text(next),
    }
}

/// Of two optional texts a copy of the one that was there first.
pub fn first_optional(current: &Option<String>, next: &Option<String>) -> (r: Option<String>)
    ensures
        opt_text(r) == first_some(opt_text(*current), opt_text(*next)),
{
    match current {
        Some(a) => Some(a.clone()),
        None => copy_optional_text(next),
    }
}

/// Of two texts a copy of the one that was there first.
pub fn first_filled(current: &String, next: &String) -> (r: String)
    ensures
        r@ == first_text(current@, next@),
{
    if current.as_str().is_empty() {
        next.clone()
    } else {
        current.clone()
    }
}

} // verus!
