//! Why an operation on keys, signatures or transactions gave no result.

use vstd::prelude::*;

verus! {

#[derive(Debug, Clone, Copy, PartialEq, Eq, Structural)]
pub enum Error {
    /// A signature does not verify against the key and digest it is meant for.
    InvalidSignature,
    /// An encrypted signature does not decode, or holds no signature of the
    /// key on the digest under the encryption key.
    InvalidEncryptedSignature,
    /// A signature is no decryption of the encrypted signature.
    RecoveryFailed,
    /// A key is not one of the two keys of the output that is spent.
    KeyNotInScript,
    /// The transaction has no input.
    NoInputs,
    /// The transaction has more than one input; the number is given.
    TooManyInputs(usize),
    /// The input's witness stack is empty.
    EmptyWitnessStack,
    /// The input's witness stack does not hold three items; the number is
    /// given.
    NotThreeWitnesses(usize),
    /// An item of the witness stack is no DER signature followed by one byte.
    MalformedSignature,
    /// Neither signature on the witness stack verifies against the key.
    NoMatchingSignature,
    /// No output of the funded transaction pays to the shared script.
    NoLockOutput,
    /// The locked amount does not cover the fees of the transactions that
    /// are to spend it.
    AmountBelowFees,
}

/// A result with its value replaced by the value's view.
pub open spec fn result_view<T: View>(r: Result<T, Error>) -> Result<T::V, Error> {
    match r {
        Ok(value) => Ok(value@),
        Err(e) => Err(e),
    }
}

} // verus!
