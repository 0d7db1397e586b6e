//! The session that asks for the depth of a Koch curve.

pub mod fsm;
