//! The precedence rules shared by every aggregate: how two optional values of
//! one field combine when fragments are merged, and how an optional value
//! becomes a concrete one when a fragment is resolved.

use vstd::prelude::*;

verus! {

/// Merging one scalar field: a value present in the later fragment replaces
/// the earlier one, an absent value leaves the earlier one untouched.
pub open spec fn later_wins<T>(earlier: Option<T>, later: Option<T>) -> Option<T> {
    if later is Some {
        later
    } else {
        earlier
    }
}

/// The view of an optional value.
pub open spec fn option_view<T: View>(value: Option<T>) -> Option<T::V> {
    match value {
        Some(v) => Some(v@),
        None => None,
    }
}

/// Resolving one leaf field: the value if present, the default otherwise.
pub open spec fn or_default<T>(value: Option<T>, default: T) -> T {
    match value {
        Some(v) => v,
        None => default,
    }
}

/// Resolving one field of a language-specific formatter: the language's own
/// value first, then the value of the top-level formatter, then the default.
pub open spec fn two_level<T>(own: Option<T>, inherited: Option<T>, default: T) -> T {
    or_default(later_wins(inherited, own), default)
}

/// Executable form of [`or_default`].
pub fn resolve_scalar<T: Copy>(value: Option<T>, default: T) -> (r: T)
    ensures
        r == or_default(value, default),
{
    match value {
        Some(v) => v,
        None => default,
    }
}

/// Executable form of [`two_level`].
pub fn resolve_two_level<T: Copy>(own: Option<T>, inherited: Option<T>, default: T) -> (r: T)
    ensures
        r == two_level(own, inherited, default),
{
    match own {
        Some(v) => v,
        None => resolve_scalar(inherited, default),
    }
}

/// Among two fragments, the later one decides every scalar it sets and the
/// earlier one every scalar the later leaves out; merging is associative, and
/// an absent value is neutral on both sides.
pub proof fn law_later_scalar_wins<T>(a: Option<T>, b: Option<T>, c: Option<T>)
    ensures
        b is Some ==> later_wins(a, b) == b,
        b is None ==> later_wins(a, b) == a,
        later_wins(None, a) == a,
        later_wins(later_wins(a, b), c) == later_wins(a, later_wins(b, c)),
{
}

} // verus!
