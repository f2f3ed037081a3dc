//! Order model and engine rules of the Ares trading engine.
//!
//! The library holds what the engine decides: the textual names of the order
//! enumerations, the mapping of stored rows to orders, the parameters of the
//! statements it issues, the validation of new orders, the status transitions
//! it allows and the order cache that it keeps in front of the database.
//! Database and network work is left to the caller.

mod text;
pub mod decimal;
pub mod kinds;
pub mod db;
pub mod engine;


pub use decimal::DecimalValue;
pub use kinds::{OrderSide, OrderStatus, OrderType, TimeInForce};
pub use text::{ascii_uppercase, is_ascii_text, str_uppercase, uppercase_of};
