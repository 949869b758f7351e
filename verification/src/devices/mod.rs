//! The supported dongles and the session that drives one.

pub mod cc253x;
pub mod devices;
