//! Why a set of fields cannot make a valid order or trade.
use vstd::prelude::*;

verus! {

#[derive(Clone, Copy, Debug, PartialEq, Eq, Structural)]
pub enum ValidationError {
    /// A volume that must be above zero is not, or a filled volume is below
    /// zero.
    NonPositiveVolume,
    /// A trade fills more than the volume of its order.
    OverfillVolume,
    /// The instrument symbol is empty.
    EmptySymbol,
    /// A limit order has no price above zero.
    MissingLimitPrice,
    /// The side is `Side::Unset`.
    UnsetSentinelSide,
    /// The order type is `OrderType::Unset`.
    UnsetSentinelOrderType,
}

} // verus!
