//! Helper function for combining Option-wrapped values.

use vstd::prelude::*;

verus! {

/// Combines two Option-wrapped values:
/// - if both are `None`, returns `None`;
/// - if one and only one has a value, returns that value in a `Some`;
/// - if both have values, applies the combining operation `op` to the two
///   contained values and wraps the result in a `Some`.
///
/// The intersection code uses this to keep the closer of two candidate
/// hits, where either side of a tree node may have missed.
pub fn match_opts<T, F: Fn(T, T) -> T>(a: Option<T>, b: Option<T>, op: F) -> (combined: Option<T>)
    requires
        a matches Some(x) && b matches Some(y) ==> call_requires(op, (x, y)),
    ensures
        a is None && b is None ==> combined is None,
        a is None ==> combined == b,
        b is None ==> combined == a,
        a matches Some(x) && b matches Some(y) ==> combined matches Some(c) && call_ensures(
            op,
            (x, y),
            c,
        ),
{
    match (a, b) {
        (None, None) => None,
        (None, Some(b)) => Some(b),
        (Some(a), None) => Some(a),
        (Some(a), Some(b)) => Some(op(a, b)),
    }
}

} // verus!
