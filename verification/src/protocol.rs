//! The two roles of the swap and the messages they exchange.

pub mod alice;
pub mod bob;
