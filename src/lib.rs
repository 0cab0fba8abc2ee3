//! Risk-and-execution core of a two-outcome arbitrage strategy: opportunity
//! evaluation over order books, an exposure ledger, a risk gate, settlement
//! classification of two-legged trades, and the decisions of the periodic
//! merge task.
//!
//! Prices, quantities and dollar amounts are fixed-point integers with six
//! decimal places (see `amount`).
pub mod amount;
pub mod store;
pub mod ledger;
pub mod evaluator;
pub mod gate;
pub mod settlement;
pub mod merge;
pub mod window;
pub mod market;
