//! Holding a prop.

pub mod on_remove_holding;
