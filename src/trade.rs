//! A trade: what was executed against an order, at what price, and how it
//! settled.
use vstd::prelude::*;
use crate::amount::Amount;
use crate::ident::fresh_id;
use crate::models::order_type::OrderType;
use crate::models::side::Side;
use crate::models::trade_status::TradeStatus;
use crate::timestamp::Timestamp;
use crate::validation::ValidationError;

verus! {

/// The record of one execution against an order. Many trades may name one
/// order; a trade holds the order's identifier, not the order.
#[derive(Debug)]
pub struct Trade {
    /// The order that this trade executed.
    pub order_id: u128,
    /// The client that sent the order.
    pub client_id: u128,
    /// Identifies the trade; drawn at random when the trade is made.
    pub trade_id: u128,
    pub order_type: OrderType,
    /// The whole volume of the order.
    pub order_volume: Amount,
    /// The volume that this trade settled.
    pub filled_volume: Amount,
    /// The price at which it was executed.
    pub avg_price: Amount,
    /// The fee charged for it.
    pub commision: Amount,
    /// When it was executed.
    pub transact_time: Timestamp,
    pub symbol: String,
    pub side: Side,
    pub status: TradeStatus,
}

/// The first rule of a valid trade that these fields break, if any: the type
/// and the side are set, the symbol is not empty, the order volume is above
/// zero and the filled volume not below it, and the filled volume is at most
/// the order volume, tested in that order.
pub open spec fn trade_violation(
    order_type: OrderType,
    order_volume: Amount,
    filled_volume: Amount,
    symbol: Seq<char>,
    side: Side,
) -> Option<ValidationError> {
    if order_type == OrderType::Unset {
        Some(ValidationError::UnsetSentinelOrderType)
    } else if side == Side::Unset {
        Some(ValidationError::UnsetSentinelSide)
    } else if symbol.len() == 0 {
        Some(ValidationError::EmptySymbol)
    } else if !order_volume.is_positive_spec() || filled_volume.is_negative_spec() {
        Some(ValidationError::NonPositiveVolume)
    } else if !filled_volume.le_spec(order_volume) {
        Some(ValidationError::OverfillVolume)
    } else {
        None
    }
}

/// The first rule of a valid trade that these fields break, if any.
pub fn check_trade(
    order_type: OrderType,
    order_volume: &Amount,
    filled_volume: &Amount,
    symbol: &String,
    side: Side,
) -> (r: Option<ValidationError>)
    ensures
        r == trade_violation(order_type, *order_volume, *filled_volume, symbol@, side),
{
    if order_type == OrderType::Unset {
        Some(ValidationError::UnsetSentinelOrderType)
    } else if side == Side::Unset {
        Some(ValidationError::UnsetSentinelSide)
    } else if symbol.as_str().is_empty() {
        Some(ValidationError::EmptySymbol)
    } else if !order_volume.is_positive() || filled_volume.is_negative() {
        Some(ValidationError::NonPositiveVolume)
    } else if !filled_volume.le(order_volume) {
        Some(ValidationError::OverfillVolume)
    } else {
        None
    }
}

impl Trade {
    /// Every field but the trade identifier is the given one.
    pub open spec fn carries(
        self,
        order_id: u128,
        client_id: u128,
        order_type: OrderType,
        order_volume: Amount,
        filled_volume: Amount,
        avg_price: Amount,
        commision: Amount,
        transact_time: Timestamp,
        symbol: Seq<char>,
        side: Side,
        status: TradeStatus,
    ) -> bool {
        &&& self.order_id == order_id
        &&& self.client_id == client_id
        &&& self.order_type == order_type
        &&& self.order_volume == order_volume
        &&& self.filled_volume == filled_volume
        &&& self.avg_price == avg_price
        &&& self.commision == commision
        &&& self.transact_time == transact_time
        &&& self.symbol@ == symbol
        &&& self.side == side
        &&& self.status == status
    }

    /// The trade with the given identifier and the given fields, none of them
    /// checked or changed.
    pub fn with_id(
        trade_id: u128,
        order_id: u128,
        client_id: u128,
        order_type: OrderType,
        order_volume: Amount,
        filled_volume: Amount,
        avg_price: Amount,
        commision: Amount,
        transact_time: Timestamp,
        symbol: String,
        side: Side,
        status: TradeStatus,
    ) -> (r: Trade)
        ensures
            r.trade_id == trade_id,
            r.carries(
                order_id,
                client_id,
                order_type,
                order_volume,
                filled_volume,
                avg_price,
                commision,
                transact_time,
                symbol@,
                side,
                status,
            ),
    {
        Trade {
            order_id,
            client_id,
            trade_id,
            order_type,
            order_volume,
            filled_volume,
            avg_price,
            commision,
            transact_time,
            symbol,
            side,
            status,
        }
    }

    /// A new trade of the given fields, none of them checked or changed (the
    /// transaction time too is the caller's), with a fresh random identifier.
    pub fn new(
        order_id: u128,
        client_id: u128,
        order_type: OrderType,
        order_volume: Amount,
        filled_volume: Amount,
        avg_price: Amount,
        commision: Amount,
        transact_time: Timestamp,
        symbol: String,
        side: Side,
        status: TradeStatus,
    ) -> (r: Trade)
        ensures
            r.carries(
                order_id,
                client_id,
                order_type,
                order_volume,
                filled_volume,
                avg_price,
                commision,
                transact_time,
                symbol@,
                side,
                status,
            ),
            r.trade_id != 0,
            crate::ident::is_random_id(r.trade_id),
    {
        let trade_id = fresh_id();
        Trade::with_id(
            trade_id,
            order_id,
            client_id,
            order_type,
            order_volume,
            filled_volume,
            avg_price,
            commision,
            transact_time,
            symbol,
            side,
            status,
        )
    }

    /// A new trade as `new` makes it where the fields make a valid trade, else
    /// the first rule that they break.
    pub fn try_new(
        order_id: u128,
        client_id: u128,
        order_type: OrderType,
        order_volume: Amount,
        filled_volume: Amount,
        avg_price: Amount,
        commision: Amount,
        transact_time: Timestamp,
        symbol: String,
        side: Side,
        status: TradeStatus,
    ) -> (r: Result<Trade, ValidationError>)
        ensures
            r is Err <==> trade_violation(order_type, order_volume, filled_volume, symbol@, side) is Some,
            r matches Err(e) ==> trade_violation(order_type, order_volume, filled_volume, symbol@, side)
                == Some(e),
            r matches Ok(t) ==> {
                &&& t.carries(
                    order_id,
                    client_id,
                    order_type,
                    order_volume,
                    filled_volume,
                    avg_price,
                    commision,
                    transact_time,
                    symbol@,
                    side,
                    status,
                )
                &&& t.trade_id != 0
                &&& crate::ident::is_random_id(t.trade_id)
            },
    {
        match check_trade(order_type, &order_volume, &filled_volume, &symbol, side) {
            Some(e) => Err(e),
            None => Ok(
                Trade::new(
                    order_id,
                    client_id,
                    order_type,
                    order_volume,
                    filled_volume,
                    avg_price,
                    commision,
                    transact_time,
                    symbol,
                    side,
                    status,
                ),
            ),
        }
    }
}

/// Two trades made from the same fields agree in every field but the trade
/// identifier.
pub proof fn lemma_trades_of_same_fields_agree(
    a: Trade,
    b: Trade,
    order_id: u128,
    client_id: u128,
    order_type: OrderType,
    order_volume: Amount,
    filled_volume: Amount,
    avg_price: Amount,
    commision: Amount,
    transact_time: Timestamp,
    symbol: Seq<char>,
    side: Side,
    status: TradeStatus,
)
    requires
        a.carries(
            order_id,
            client_id,
            order_type,
            order_volume,
            filled_volume,
            avg_price,
            commision,
            transact_time,
            symbol,
            side,
            status,
        ),
        b.carries(
            order_id,
            client_id,
            order_type,
            order_volume,
            filled_volume,
            avg_price,
            commision,
            transact_time,
            symbol,
            side,
            status,
        ),
    ensures
        a.order_id == b.order_id,
        a.client_id == b.client_id,
        a.order_type == b.order_type,
        a.order_volume == b.order_volume,
        a.filled_volume == b.filled_volume,
        a.avg_price == b.avg_price,
        a.commision == b.commision,
        a.transact_time == b.transact_time,
        a.symbol@ == b.symbol@,
        a.side == b.side,
        a.status == b.status,
{
}

} // verus!
