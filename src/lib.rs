//! Value types of an order matching engine: the orders that clients send and
//! the trades that come out of matching them.
pub mod amount;
pub mod fill;
pub mod ident;
pub mod models;
pub mod order;
pub mod timestamp;
pub mod trade;
pub mod validation;
