//! A texture alternating between two other textures in a checkerboard
//! fashion.

use vstd::prelude::*;
use std::sync::Arc;

verus! {

/// A checkered texture alternating between two enclosed textures.
///
/// Which of the two is consulted at a point is a floating-point rule the
/// renderer applies; the pair itself is plain shared data.
#[derive(Debug)]
pub struct Checkered<T, U> {
    pub even: Arc<T>,
    pub odd: Arc<U>,
}

impl<T, U> Checkered<T, U> {
    /// Creates a new checkered texture sharing the two given textures.
    pub fn new(e: &Arc<T>, o: &Arc<U>) -> (checkered: Self)
        ensures
            checkered.even == *e,
            checkered.odd == *o,
    {
        Checkered { even: clone_arc(e), odd: clone_arc(o) }
    }
}

/// Relies on `Arc::clone`: the clone is the same shared value.
#[verifier::external_body]
fn clone_arc<T>(arc: &Arc<T>) -> (cloned: Arc<T>)
    ensures
        cloned == *arc,
{
    Arc::clone(arc)
}

} // verus!
