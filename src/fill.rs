//! A fill as an exchange reports it: keyed by the exchange, with no link to
//! an order.
use vstd::prelude::*;
use crate::amount::Amount;
use crate::ident::fresh_id;
use crate::timestamp::Timestamp;

verus! {

#[derive(Debug)]
pub struct SimpleFill {
    /// The exchange on which the fill took place.
    pub exchange: String,
    /// Identifies the fill; drawn at random when it is made.
    pub trade_id: u128,
    /// The volume filled.
    pub trade_volume: Amount,
    /// The price at which it was executed.
    pub avg_price: Amount,
    /// The fee charged for it.
    pub commision: Amount,
    /// When it was executed.
    pub transact_time: Timestamp,
    pub symbol: String,
}

impl SimpleFill {
    /// Every field but the identifier is the given one.
    pub open spec fn carries(
        self,
        exchange: Seq<char>,
        trade_volume: Amount,
        avg_price: Amount,
        commision: Amount,
        transact_time: Timestamp,
        symbol: Seq<char>,
    ) -> bool {
        &&& self.exchange@ == exchange
        &&& self.trade_volume == trade_volume
        &&& self.avg_price == avg_price
        &&& self.commision == commision
        &&& self.transact_time == transact_time
        &&& self.symbol@ == symbol
    }

    /// A new fill of the given fields, none of them checked or changed, with a
    /// fresh random identifier.
    pub fn new(
        exchange: String,
        trade_volume: Amount,
        avg_price: Amount,
        commision: Amount,
        transact_time: Timestamp,
        symbol: String,
    ) -> (r: SimpleFill)
        ensures
            r.carries(exchange@, trade_volume, avg_price, commision, transact_time, symbol@),
            r.trade_id != 0,
            crate::ident::is_random_id(r.trade_id),
    {
        let trade_id = fresh_id();
        SimpleFill { exchange, trade_id, trade_volume, avg_price, commision, transact_time, symbol }
    }
}

} // verus!
