//! Interactions between an actor and a prop.

pub mod finder;
pub mod hold;
pub mod pull;
