//! The direction of an order: buy ("bid") or sell ("ask").
use vstd::prelude::*;

verus! {

/// `Unset` marks a side that was never set and is no trading direction.
#[derive(Clone, Copy, Debug, PartialEq, Eq, Structural)]
pub enum Side {
    Bid,
    Ask,
    Unset,
}

/// Equality on sides is reflexive and symmetric, and tells every two variants
/// apart.
pub proof fn lemma_side_eq(a: Side, b: Side)
    ensures
        a == a,
        (a == b) == (b == a),
        Side::Bid != Side::Ask,
        Side::Bid != Side::Unset,
        Side::Ask != Side::Unset,
{
}

} // verus!
