//! Balance of parentheses, counted on a bounded stack.

pub mod fsm;
pub mod parentheses;
pub mod stack;
