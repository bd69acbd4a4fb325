//! Alice's side of a Bitcoin–Monero atomic swap: the inbound handling of Bob's
//! encrypted signature, and the decisions of her lock, cancel and refund steps.

pub mod bitcoin;
pub mod bytes;
pub mod monero;
pub mod network;
pub mod protocol;
