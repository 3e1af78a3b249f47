//! The closed enumerations that orders and trades are made of.
pub mod order_type;
pub mod side;
pub mod trade_status;
