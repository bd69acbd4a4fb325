//! The transaction that takes the bitcoin out of the lock once the cancel
//! timelock has run out, into a second output shared by both parties.

use crate::bitcoin::error::{result_view, Error};
use crate::bitcoin::keys::{PublicKey, SigHash, Signature};
use crate::bitcoin::lock::{TxLock, TxLockView};
use crate::bitcoin::shared::{
    build_shared_script, build_shared_script_pubkey, lemma_signing_keeps_txid,
    pay_to_witness_script, shared_script, sign_single_input, signed_transaction, TX_FEE,
};
use crate::bitcoin::timelocks::CancelTimelock;
use crate::bitcoin::transaction::{
    sighash_of, txid_of, OutPoint, OutPointView, Transaction, TransactionView, TxIn, TxInView,
    TxOut, TxOutView, Txid,
};
use vstd::prelude::*;

verus! {

pub struct TxCancel {
    inner: Transaction,
    digest: SigHash,
    spent_a: PublicKey,
    spent_b: PublicKey,
    a: PublicKey,
    b: PublicKey,
}

pub struct TxCancelView {
    /// The transaction without signatures.
    pub transaction: TransactionView,
    /// What a signature on its input commits to.
    pub digest: Seq<u8>,
    /// The keys that share the output it spends.
    pub spent_a: Seq<u8>,
    pub spent_b: Seq<u8>,
    /// The keys that share its own output.
    pub a: Seq<u8>,
    pub b: Seq<u8>,
}

impl TxCancelView {
    /// The amount that the transaction's output holds.
    pub open spec fn amount(self) -> u64 {
        self.transaction.output[0].value
    }

    /// The transaction's output as a later transaction refers to it.
    pub open spec fn outpoint(self) -> OutPointView {
        OutPointView { txid: txid_of(self.transaction), vout: 0 }
    }

    /// One input without signatures, and one output that holds enough for
    /// the fee of the transaction that spends it.
    pub open spec fn wf(self) -> bool {
        &&& self.transaction.input.len() == 1
        &&& self.transaction.input[0].script_sig.len() == 0
        &&& self.transaction.output.len() == 1
        &&& self.amount() >= TX_FEE
    }
}

impl View for TxCancel {
    type V = TxCancelView;

    closed spec fn view(&self) -> TxCancelView {
        TxCancelView {
            transaction: self.inner@,
            digest: self.digest@,
            spent_a: self.spent_a@,
            spent_b: self.spent_b@,
            a: self.a@,
            b: self.b@,
        }
    }
}

/// The cancel transaction for a lock: it spends the shared output, can be
/// mined `timelock` blocks after the lock, and pays the locked amount less
/// the fee into an output shared by `a` and `b`.
pub open spec fn tx_cancel_of(lock: TxLockView, timelock: u32, a: Seq<u8>, b: Seq<u8>) -> TxCancelView {
    let transaction = TransactionView {
        version: 2,
        lock_time: 0,
        input: seq![
            TxInView {
                previous_output: lock.outpoint(),
                script_sig: Seq::empty(),
                sequence: timelock,
                witness: Seq::empty(),
            },
        ],
        output: seq![
            TxOutView {
                value: (lock.amount() - TX_FEE) as u64,
                script_pubkey: pay_to_witness_script(shared_script(a, b)),
            },
        ],
    };
    TxCancelView {
        transaction,
        digest: sighash_of(transaction, 0, shared_script(lock.a, lock.b), lock.amount()),
        spent_a: lock.a,
        spent_b: lock.b,
        a,
        b,
    }
}

impl TxCancel {
    #[verifier::type_invariant]
    spec fn inv(self) -> bool {
        self@.wf()
    }

    pub fn new(tx_lock: &TxLock, cancel_timelock: CancelTimelock, a: PublicKey, b: PublicKey) -> (tx_cancel:
        TxCancel)
        ensures
            tx_cancel@ == tx_cancel_of(tx_lock@, cancel_timelock.0, a@, b@),
            tx_cancel@.wf(),
    {
        let amount = tx_lock.lock_amount();
        let (spent_a, spent_b) = tx_lock.keys();
        let input = TxIn {
            previous_output: tx_lock.as_outpoint(),
            script_sig: Vec::new(),
            sequence: cancel_timelock.0,
            witness: Vec::new(),
        };
        let output = TxOut {
            value: amount - TX_FEE,
            script_pubkey: build_shared_script_pubkey(&a, &b),
        };
        let mut inputs: Vec<TxIn> = Vec::new();
        inputs.push(input);
        let mut outputs: Vec<TxOut> = Vec::new();
        outputs.push(output);
        let inner = Transaction { version: 2, lock_time: 0, input: inputs, output: outputs };
        let script = build_shared_script(&spent_a, &spent_b);
        let digest = inner.signature_hash(0, script.as_slice(), amount);
        proof {
            let want = tx_cancel_of(tx_lock@, cancel_timelock.0, a@, b@);
            assert(inner@.input[0].witness =~= Seq::<Seq<u8>>::empty());
            assert(inner@.input[0].script_sig =~= Seq::<u8>::empty());
            assert(inner@.input[0] == want.transaction.input[0]);
            assert(inner@.input =~= want.transaction.input);
            assert(inner@.output =~= want.transaction.output);
            assert(inner@ == want.transaction);
        }
        TxCancel { inner, digest, spent_a, spent_b, a, b }
    }

    /// The transaction, without signatures of its own.
    pub fn transaction(&self) -> (transaction: &Transaction)
        ensures
            transaction@ == self@.transaction,
    {
        &self.inner
    }

    /// The transaction's identifier.
    pub fn txid(&self) -> (txid: Txid)
        ensures
            txid@ == txid_of(self@.transaction),
    {
        self.inner.txid()
    }

    /// What a signature on the transaction commits to.
    pub fn digest(&self) -> (digest: SigHash)
        ensures
            digest@ == self@.digest,
    {
        self.digest
    }

    /// The amount that the transaction's output holds.
    pub fn amount(&self) -> (amount: u64)
        ensures
            amount == self@.amount(),
            self@.wf(),
    {
        proof {
            use_type_invariant(self);
        }
        self.inner.output[0].value
    }

    /// The transaction's output as a later transaction refers to it.
    pub fn as_outpoint(&self) -> (outpoint: OutPoint)
        ensures
            outpoint@ == self@.outpoint(),
    {
        OutPoint { txid: self.inner.txid(), vout: 0 }
    }

    /// The two keys that share the transaction's output.
    pub fn keys(&self) -> (keys: (PublicKey, PublicKey))
        ensures
            keys.0@ == self@.a,
            keys.1@ == self@.b,
    {
        (self.a, self.b)
    }

    /// The transaction with both signatures, ready to be broadcast. Each
    /// argument is a key with its signature; the two keys have to be those
    /// of the output it spends, in their order, and each signature has to
    /// verify. The identifier stays what it was.
    pub fn add_signatures(
        &self,
        first: (PublicKey, Signature),
        second: (PublicKey, Signature),
    ) -> (signed: Result<Transaction, Error>)
        ensures
            result_view(signed) == signed_transaction(
                self@.transaction,
                self@.digest,
                self@.spent_a,
                self@.spent_b,
                first.0@,
                first.1@,
                second.0@,
                second.1@,
            ),
            signed matches Ok(tx) ==> txid_of(tx@) == txid_of(self@.transaction),
    {
        proof {
            use_type_invariant(self);
        }
        let signed = sign_single_input(
            &self.inner,
            &self.digest,
            &self.spent_a,
            &self.spent_b,
            &first.0,
            &first.1,
            &second.0,
            &second.1,
        );
        proof {
            if signed is Ok {
                lemma_signing_keeps_txid(
                    self@.transaction,
                    self@.digest,
                    self@.spent_a,
                    self@.spent_b,
                    first.0@,
                    first.1@,
                    second.0@,
                    second.1@,
                );
            }
        }
        signed
    }
}

} // verus!
