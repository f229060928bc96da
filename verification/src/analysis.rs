//! Analysis contexts and the units they own.
pub mod context;
pub mod unit;

pub use context::Context;
pub use unit::Unit;
