//! Searching: Fibonacci probing on a sorted sequence and a probing set.

pub mod fibonacci;
pub mod fsm;
pub mod hash;
