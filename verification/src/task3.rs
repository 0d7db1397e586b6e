//! Substring search with a last-occurrence table.

pub mod fsm;
pub mod substr_search;
