//! The XMR-seller.

pub mod encrypted_signature;
pub mod state;
pub mod steps;

pub use state::{State3, TransferProof};
