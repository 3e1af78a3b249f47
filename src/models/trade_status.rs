//! The settlement status that the matching logic gives a trade.
use vstd::prelude::*;

verus! {

#[derive(Clone, Copy, Debug, PartialEq, Eq, Structural)]
pub enum TradeStatus {
    Executed,
    Cancelled,
    Rejected,
    Unset,
}

/// Equality on trade statuses is reflexive and symmetric, and tells every two
/// variants apart.
pub proof fn lemma_trade_status_eq(a: TradeStatus, b: TradeStatus)
    ensures
        a == a,
        (a == b) == (b == a),
        TradeStatus::Executed != TradeStatus::Cancelled,
        TradeStatus::Executed != TradeStatus::Rejected,
        TradeStatus::Executed != TradeStatus::Unset,
        TradeStatus::Cancelled != TradeStatus::Rejected,
        TradeStatus::Cancelled != TradeStatus::Unset,
        TradeStatus::Rejected != TradeStatus::Unset,
{
}

} // verus!
