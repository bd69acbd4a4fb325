//! The Bitcoin side of the swap: keys and signatures over secp256k1, the
//! timelocks, and the transactions that spend the jointly held output.

pub mod address;
pub mod cancel;
pub mod der;
pub mod error;
pub mod hashes;
pub mod keys;
pub mod lock;
pub mod punish;
pub mod redeem;
pub mod refund;
pub mod shared;
pub mod timelocks;
pub mod transaction;

pub use address::Address;
pub use cancel::TxCancel;
pub use error::Error;
pub use keys::{
    recover, verify_encsig, verify_sig, EncryptedSignature, PublicKey, Scalar, SecretKey, SigHash, Signature,
};
pub use lock::TxLock;
pub use punish::TxPunish;
pub use redeem::TxRedeem;
pub use refund::TxRefund;
pub use shared::TX_FEE;
pub use timelocks::{BlockHeight, CancelTimelock, PunishTimelock};
pub use transaction::{OutPoint, Transaction, TxIn, TxOut, Txid};
