//! What Alice holds once Bob's lock transaction and signatures have been
//! checked, and the message with which she shows that she locked in turn.

use crate::bitcoin;
use crate::bitcoin::timelocks::{CancelTimelock, PunishTimelock};
use crate::monero;
use vstd::prelude::*;

verus! {

/// Alice's message to Bob after she has locked the monero.
#[derive(Debug, Clone, Copy)]
pub struct TransferProof {
    pub tx_lock_proof: monero::TransferProof,
}

/// Alice's state after Bob's second message: both parties' key material,
/// the terms of the swap, and Bob's lock transaction with his signature on
/// the cancel transaction.
#[allow(non_snake_case)]
pub struct State3 {
    pub a: bitcoin::SecretKey,
    pub B: bitcoin::PublicKey,
    pub s_a: monero::Scalar,
    pub S_b_monero: monero::PublicKey,
    pub S_b_bitcoin: bitcoin::PublicKey,
    pub v: monero::PrivateViewKey,
    pub xmr: monero::Amount,
    pub cancel_timelock: CancelTimelock,
    pub punish_timelock: PunishTimelock,
    pub refund_address: bitcoin::Address,
    pub tx_lock: bitcoin::TxLock,
    pub tx_cancel_sig_bob: bitcoin::Signature,
}

} // verus!
