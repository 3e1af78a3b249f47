//! An order: a client's instruction to buy or sell a volume of an instrument.
use vstd::prelude::*;
use crate::amount::Amount;
use crate::ident::fresh_id;
use crate::models::order_type::OrderType;
use crate::models::side::Side;
use crate::timestamp::{utc_now, Timestamp};
use crate::validation::ValidationError;

verus! {

#[derive(Debug)]
pub struct Order {
    /// Identifies the order; drawn at random when the order is made.
    pub order_id: u128,
    pub order_type: OrderType,
    /// How much to buy or sell.
    pub volume: Amount,
    /// The limit price; a market order ignores it.
    pub price: Amount,
    /// When the order was made.
    pub create_time: Timestamp,
    /// The instrument, such as `AAPL`.
    pub symbol: String,
    pub side: Side,
}

/// The first rule of a valid order that these fields break, if any: the type
/// and the side are set, the symbol is not empty, the volume is above zero and
/// a limit order has a price above zero, tested in that order.
pub open spec fn order_violation(
    order_type: OrderType,
    volume: Amount,
    price: Amount,
    symbol: Seq<char>,
    side: Side,
) -> Option<ValidationError> {
    if order_type == OrderType::Unset {
        Some(ValidationError::UnsetSentinelOrderType)
    } else if side == Side::Unset {
        Some(ValidationError::UnsetSentinelSide)
    } else if symbol.len() == 0 {
        Some(ValidationError::EmptySymbol)
    } else if !volume.is_positive_spec() {
        Some(ValidationError::NonPositiveVolume)
    } else if order_type == OrderType::Limit && !price.is_positive_spec() {
        Some(ValidationError::MissingLimitPrice)
    } else {
        None
    }
}

/// The first rule of a valid order that these fields break, if any.
pub fn check_order(
    order_type: OrderType,
    volume: &Amount,
    price: &Amount,
    symbol: &String,
    side: Side,
) -> (r: Option<ValidationError>)
    ensures
        r == order_violation(order_type, *volume, *price, symbol@, side),
{
    if order_type == OrderType::Unset {
        Some(ValidationError::UnsetSentinelOrderType)
    } else if side == Side::Unset {
        Some(ValidationError::UnsetSentinelSide)
    } else if symbol.as_str().is_empty() {
        Some(ValidationError::EmptySymbol)
    } else if !volume.is_positive() {
        Some(ValidationError::NonPositiveVolume)
    } else if order_type == OrderType::Limit && !price.is_positive() {
        Some(ValidationError::MissingLimitPrice)
    } else {
        None
    }
}

impl Order {
    /// Every field but the identifier and the creation time is the given one.
    pub open spec fn carries(
        self,
        order_type: OrderType,
        volume: Amount,
        price: Amount,
        symbol: Seq<char>,
        side: Side,
    ) -> bool {
        &&& self.order_type == order_type
        &&& self.volume == volume
        &&& self.price == price
        &&& self.symbol@ == symbol
        &&& self.side == side
    }

    /// The order with the given identifier and creation time and the given
    /// fields, none of them checked or changed.
    pub fn with_identity(
        order_id: u128,
        create_time: Timestamp,
        order_type: OrderType,
        volume: Amount,
        price: Amount,
        symbol: String,
        side: Side,
    ) -> (r: Order)
        ensures
            r.order_id == order_id,
            r.create_time == create_time,
            r.carries(order_type, volume, price, symbol@, side),
    {
        Order { order_id, order_type, volume, price, create_time, symbol, side }
    }

    /// A new order of the given fields, none of them checked or changed, with a
    /// fresh random identifier and the current time as its creation time.
    pub fn new(order_type: OrderType, volume: Amount, price: Amount, symbol: String, side: Side) -> (r: Order)
        ensures
            r.carries(order_type, volume, price, symbol@, side),
            r.order_id != 0,
            crate::ident::is_random_id(r.order_id),
            r.create_time.secs >= 0,
            r.create_time.nanos < 1_000_000_000,
    {
        let order_id = fresh_id();
        let create_time = utc_now();
        Order::with_identity(order_id, create_time, order_type, volume, price, symbol, side)
    }

    /// A new order as `new` makes it where the fields make a valid order, else
    /// the first rule that they break.
    pub fn try_new(
        order_type: OrderType,
        volume: Amount,
        price: Amount,
        symbol: String,
        side: Side,
    ) -> (r: Result<Order, ValidationError>)
        ensures
            r is Err <==> order_violation(order_type, volume, price, symbol@, side) is Some,
            r matches Err(e) ==> order_violation(order_type, volume, price, symbol@, side) == Some(e),
            r matches Ok(o) ==> {
                &&& o.carries(order_type, volume, price, symbol@, side)
                &&& o.order_id != 0
                &&& crate::ident::is_random_id(o.order_id)
                &&& o.create_time.nanos < 1_000_000_000
            },
    {
        match check_order(order_type, &volume, &price, &symbol, side) {
            Some(e) => Err(e),
            None => Ok(Order::new(order_type, volume, price, symbol, side)),
        }
    }
}

/// Two orders made from the same fields agree in every field but the
/// identifier and the creation time.
pub proof fn lemma_orders_of_same_fields_agree(
    a: Order,
    b: Order,
    order_type: OrderType,
    volume: Amount,
    price: Amount,
    symbol: Seq<char>,
    side: Side,
)
    requires
        a.carries(order_type, volume, price, symbol, side),
        b.carries(order_type, volume, price, symbol, side),
    ensures
        a.order_type == b.order_type,
        a.volume == b.volume,
        a.price == b.price,
        a.symbol@ == b.symbol@,
        a.side == b.side,
{
}

} // verus!
