//! Interactive exercise sessions over small algorithms with verified contracts.
//!
//! Every session is a state machine that maps one line of input to a next
//! state, a control-flow signal and a notice describing what to tell the user.
//! The algorithms the sessions drive (sorting, Fibonacci search on a sorted
//! sequence, a fixed-capacity probing set, substring search, a bounded stack)
//! carry contracts over mathematical models of their data.

pub mod common;
pub mod fsm;
pub mod task1;
pub mod task2;
pub mod task3;
pub mod task4;
pub mod task5;
pub mod text;
