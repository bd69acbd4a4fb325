//! The XMR-buyer, as far as the seller's side has to know him.

use crate::bitcoin;
use vstd::prelude::*;

verus! {

/// Bob's last message: his encrypted signature on the redeem transaction.
#[derive(Debug, Clone, Copy)]
pub struct EncryptedSignature {
    pub tx_redeem_encsig: bitcoin::EncryptedSignature,
}

} // verus!
