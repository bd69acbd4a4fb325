//! The transaction that pays the locked bitcoin to the seller.

use crate::bitcoin::address::Address;
use crate::bitcoin::error::{result_view, Error};
use crate::bitcoin::keys::{PublicKey, SigHash, Signature};
use crate::bitcoin::lock::{TxLock, TxLockView};
use crate::bitcoin::shared::{
    build_shared_script, extract_signature_by_key, extracted,
    lemma_signed_transaction_yields_signatures, lemma_signing_keeps_txid, shared_script,
    sign_single_input, signed_transaction, TX_FEE,
};
use crate::bitcoin::transaction::{
    sighash_of, txid_of, Transaction, TransactionView, TxIn, TxInView, TxOut, TxOutView, Txid,
};
use vstd::prelude::*;
use vstd::slice::slice_to_vec;

verus! {

pub struct TxRedeem {
    inner: Transaction,
    digest: SigHash,
    spent_a: PublicKey,
    spent_b: PublicKey,
}

pub struct TxRedeemView {
    /// The transaction without signatures.
    pub transaction: TransactionView,
    /// What a signature on its input commits to.
    pub digest: Seq<u8>,
    /// The keys that share the output it spends.
    pub spent_a: Seq<u8>,
    pub spent_b: Seq<u8>,
}

impl TxRedeemView {
    /// One input without signatures, and one output.
    pub open spec fn wf(self) -> bool {
        &&& self.transaction.input.len() == 1
        &&& self.transaction.input[0].script_sig.len() == 0
        &&& self.transaction.output.len() == 1
    }
}

impl View for TxRedeem {
    type V = TxRedeemView;

    closed spec fn view(&self) -> TxRedeemView {
        TxRedeemView {
            transaction: self.inner@,
            digest: self.digest@,
            spent_a: self.spent_a@,
            spent_b: self.spent_b@,
        }
    }
}

/// The redeem transaction for a lock: it spends the shared output, with no
/// timelock, and pays the locked amount less the fee to `redeem_script`.
pub open spec fn tx_redeem_of(lock: TxLockView, redeem_script: Seq<u8>) -> TxRedeemView {
    let transaction = TransactionView {
        version: 2,
        lock_time: 0,
        input: seq![
            TxInView {
                previous_output: lock.outpoint(),
                script_sig: Seq::empty(),
                sequence: 0xFFFF_FFFF,
                witness: Seq::empty(),
            },
        ],
        output: seq![
            TxOutView { value: (lock.amount() - TX_FEE) as u64, script_pubkey: redeem_script },
        ],
    };
    TxRedeemView {
        transaction,
        digest: sighash_of(transaction, 0, shared_script(lock.a, lock.b), lock.amount()),
        spent_a: lock.a,
        spent_b: lock.b,
    }
}

/// Whoever takes the locked bitcoin with the redeem transaction shows the
/// signature of the second key on it: the transaction, once it carries two
/// signatures that verify, gives that signature back to whoever reads it
/// with the second key.
pub proof fn lemma_signed_redeem_shows_the_second_signature(
    lock: TxLockView,
    redeem_script: Seq<u8>,
    sig_a: Seq<u8>,
    sig_b: Seq<u8>,
)
    requires
        sig_a.len() == 64,
        sig_b.len() == 64,
        signed_transaction(
            tx_redeem_of(lock, redeem_script).transaction,
            tx_redeem_of(lock, redeem_script).digest,
            lock.a,
            lock.b,
            lock.a,
            sig_a,
            lock.b,
            sig_b,
        ) is Ok,
    ensures
        extracted(
            signed_transaction(
                tx_redeem_of(lock, redeem_script).transaction,
                tx_redeem_of(lock, redeem_script).digest,
                lock.a,
                lock.b,
                lock.a,
                sig_a,
                lock.b,
                sig_b,
            )->Ok_0,
            lock.b,
            tx_redeem_of(lock, redeem_script).digest,
        ) == Ok::<Seq<u8>, Error>(sig_b),
{
    lemma_signed_transaction_yields_signatures(
        tx_redeem_of(lock, redeem_script).transaction,
        tx_redeem_of(lock, redeem_script).digest,
        lock.a,
        lock.b,
        sig_a,
        sig_b,
    );
}

impl TxRedeem {
    #[verifier::type_invariant]
    spec fn inv(self) -> bool {
        self@.wf()
    }

    pub fn new(tx_lock: &TxLock, redeem_address: &Address) -> (tx_redeem: TxRedeem)
        ensures
            tx_redeem@ == tx_redeem_of(tx_lock@, redeem_address@),
            tx_redeem@.wf(),
    {
        let amount = tx_lock.lock_amount();
        let (spent_a, spent_b) = tx_lock.keys();
        let input = TxIn {
            previous_output: tx_lock.as_outpoint(),
            script_sig: Vec::new(),
            sequence: 0xFFFF_FFFF,
            witness: Vec::new(),
        };
        let output = TxOut {
            value: amount - TX_FEE,
            script_pubkey: slice_to_vec(redeem_address.script_pubkey.as_slice()),
        };
        let mut inputs: Vec<TxIn> = Vec::new();
        inputs.push(input);
        let mut outputs: Vec<TxOut> = Vec::new();
        outputs.push(output);
        let inner = Transaction { version: 2, lock_time: 0, input: inputs, output: outputs };
        let script = build_shared_script(&spent_a, &spent_b);
        let digest = inner.signature_hash(0, script.as_slice(), amount);
        proof {
            let want = tx_redeem_of(tx_lock@, redeem_address@);
            assert(inner@.input[0].witness =~= Seq::<Seq<u8>>::empty());
            assert(inner@.input[0].script_sig =~= Seq::<u8>::empty());
            assert(inner@.input[0] == want.transaction.input[0]);
            assert(inner@.input =~= want.transaction.input);
            assert(inner@.output =~= want.transaction.output);
            assert(inner@ == want.transaction);
        }
        TxRedeem { inner, digest, spent_a, spent_b }
    }

    /// The transaction, without signatures of its own.
    pub fn transaction(&self) -> (transaction: &Transaction)
        ensures
            transaction@ == self@.transaction,
    {
        &self.inner
    }

    /// The transaction's identifier.
    pub fn txid(&self) -> (txid: Txid)
        ensures
            txid@ == txid_of(self@.transaction),
    {
        self.inner.txid()
    }

    /// What a signature on the transaction commits to.
    pub fn digest(&self) -> (digest: SigHash)
        ensures
            digest@ == self@.digest,
    {
        self.digest
    }

    /// The transaction with both signatures, ready to be broadcast. Each
    /// argument is a key with its signature; the two keys have to be those
    /// of the output it spends, in their order, and each signature has to
    /// verify. The identifier stays what it was.
    pub fn add_signatures(
        &self,
        first: (PublicKey, Signature),
        second: (PublicKey, Signature),
    ) -> (signed: Result<Transaction, Error>)
        ensures
            result_view(signed) == signed_transaction(
                self@.transaction,
                self@.digest,
                self@.spent_a,
                self@.spent_b,
                first.0@,
                first.1@,
                second.0@,
                second.1@,
            ),
            signed matches Ok(tx) ==> txid_of(tx@) == txid_of(self@.transaction),
    {
        proof {
            use_type_invariant(self);
        }
        let signed = sign_single_input(
            &self.inner,
            &self.digest,
            &self.spent_a,
            &self.spent_b,
            &first.0,
            &first.1,
            &second.0,
            &second.1,
        );
        proof {
            if signed is Ok {
                lemma_signing_keeps_txid(
                    self@.transaction,
                    self@.digest,
                    self@.spent_a,
                    self@.spent_b,
                    first.0@,
                    first.1@,
                    second.0@,
                    second.1@,
                );
            }
        }
        signed
    }

    /// Reads the signature of `key` on this transaction off a transaction
    /// that was seen on the chain.
    pub fn extract_signature_by_key(&self, candidate_transaction: Transaction, key: PublicKey) -> (sig:
        Result<Signature, Error>)
        ensures
            result_view(sig) == extracted(candidate_transaction@, key@, self@.digest),
    {
        extract_signature_by_key(&candidate_transaction, &self.digest, &key)
    }
}

} // verus!
