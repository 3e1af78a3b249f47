//! How an order is to be executed.
use vstd::prelude::*;

verus! {

/// A limit order trades at its price or better; a market order trades at the
/// best price available and ignores its price. `Unset` marks a kind that was
/// never set and is no business state.
#[derive(Clone, Copy, Debug, PartialEq, Eq, Structural)]
pub enum OrderType {
    Limit,
    Market,
    Unset,
}

/// Equality on order types is reflexive and symmetric, and tells every two
/// variants apart.
pub proof fn lemma_order_type_eq(a: OrderType, b: OrderType)
    ensures
        a == a,
        (a == b) == (b == a),
        OrderType::Limit != OrderType::Market,
        OrderType::Limit != OrderType::Unset,
        OrderType::Market != OrderType::Unset,
{
}

} // verus!
