//! The transaction that locks the bitcoin in an output shared by both
//! parties.

use crate::bitcoin::error::{result_view, Error};
use crate::bitcoin::keys::PublicKey;
use crate::bitcoin::shared::{
    build_shared_script_pubkey, bytes_equal, pay_to_witness_script, shared_script, TX_FEE,
};
use crate::bitcoin::transaction::{
    txid_of, OutPoint, OutPointView, Transaction, TransactionView, TxOutView, Txid,
};
use vstd::prelude::*;

verus! {

/// A funded transaction with the output shared by the keys `a` and `b`.
pub struct TxLock {
    inner: Transaction,
    vout: u32,
    a: PublicKey,
    b: PublicKey,
}

pub struct TxLockView {
    pub transaction: TransactionView,
    /// The index of the shared output.
    pub vout: int,
    pub a: Seq<u8>,
    pub b: Seq<u8>,
}

impl TxLockView {
    /// The amount that the shared output holds.
    pub open spec fn amount(self) -> u64 {
        self.transaction.output[self.vout].value
    }

    /// The shared output as a later transaction refers to it.
    pub open spec fn outpoint(self) -> OutPointView {
        OutPointView { txid: txid_of(self.transaction), vout: self.vout as u32 }
    }

    /// The shared output is there, is the first that pays to the shared
    /// script, and holds enough for the fees of a cancel and a refund.
    pub open spec fn wf(self) -> bool {
        &&& self.vout <= u32::MAX
        &&& paid_at(
            self.transaction.output,
            pay_to_witness_script(shared_script(self.a, self.b)),
            self.vout,
        )
        &&& self.amount() >= 2 * TX_FEE
    }
}

impl View for TxLock {
    type V = TxLockView;

    closed spec fn view(&self) -> TxLockView {
        TxLockView { transaction: self.inner@, vout: self.vout as int, a: self.a@, b: self.b@ }
    }
}

/// Whether the output `i` is the first of `outputs` that pays to `script`.
pub open spec fn paid_at(outputs: Seq<TxOutView>, script: Seq<u8>, i: int) -> bool {
    &&& 0 <= i < outputs.len()
    &&& outputs[i].script_pubkey == script
    &&& forall|j: int| 0 <= j < i ==> outputs[j].script_pubkey != script
}

/// The index of the first of `outputs` that pays to `script`, where there is
/// one.
pub open spec fn first_paid(outputs: Seq<TxOutView>, script: Seq<u8>) -> int {
    choose|i: int| paid_at(outputs, script, i)
}

proof fn lemma_first_paid(outputs: Seq<TxOutView>, script: Seq<u8>, i: int)
    requires
        paid_at(outputs, script, i),
    ensures
        first_paid(outputs, script) == i,
{
    let found = first_paid(outputs, script);
    assert(paid_at(outputs, script, found));
}

/// The lock transaction that `funded` makes for the keys `a` and `b`: its
/// shared output is the first that pays to their script.
pub open spec fn tx_lock_of(funded: TransactionView, a: Seq<u8>, b: Seq<u8>) -> Result<
    TxLockView,
    Error,
> {
    let script = pay_to_witness_script(shared_script(a, b));
    if !(exists|i: int| paid_at(funded.output, script, i)) {
        Err(Error::NoLockOutput)
    } else {
        let vout = first_paid(funded.output, script);
        if funded.output[vout].value < 2 * TX_FEE {
            Err(Error::AmountBelowFees)
        } else {
            Ok(TxLockView { transaction: funded, vout, a, b })
        }
    }
}

impl TxLock {
    #[verifier::type_invariant]
    spec fn inv(self) -> bool {
        self@.wf()
    }

    /// Takes up the transaction that the wallet funded. It has to hold an
    /// output that pays to the script shared by `a` and `b`, with an amount
    /// that covers the fees of the two transactions that may have to spend
    /// it one after the other.
    pub fn new(funded: Transaction, a: PublicKey, b: PublicKey) -> (lock: Result<TxLock, Error>)
        requires
            funded@.output.len() <= u32::MAX,
        ensures
            result_view(lock) == tx_lock_of(funded@, a@, b@),
            lock matches Ok(l) ==> l@.wf(),
    {
        let script = build_shared_script_pubkey(&a, &b);
        let mut i: usize = 0;
        while i < funded.output.len()
            invariant
                i <= funded@.output.len() <= u32::MAX,
                script@ == pay_to_witness_script(shared_script(a@, b@)),
                forall|j: int| 0 <= j < i ==> funded@.output[j].script_pubkey != script@,
            decreases funded@.output.len() - i,
        {
            if bytes_equal(funded.output[i].script_pubkey.as_slice(), script.as_slice()) {
                proof {
                    assert(paid_at(funded@.output, script@, i as int));
                    lemma_first_paid(funded@.output, script@, i as int);
                }
                if funded.output[i].value < 2 * TX_FEE {
                    return Err(Error::AmountBelowFees);
                }
                return Ok(TxLock { inner: funded, vout: i as u32, a, b });
            }
            i += 1;
        }
        Err(Error::NoLockOutput)
    }

    /// The transaction as it was funded.
    pub fn transaction(&self) -> (transaction: &Transaction)
        ensures
            transaction@ == self@.transaction,
    {
        &self.inner
    }

    /// The transaction's identifier.
    pub fn txid(&self) -> (txid: Txid)
        ensures
            txid@ == txid_of(self@.transaction),
    {
        self.inner.txid()
    }

    /// The amount that the shared output holds.
    pub fn lock_amount(&self) -> (amount: u64)
        ensures
            amount == self@.amount(),
            self@.wf(),
    {
        proof {
            use_type_invariant(self);
        }
        self.inner.output[self.vout as usize].value
    }

    /// The shared output as a later transaction refers to it.
    pub fn as_outpoint(&self) -> (outpoint: OutPoint)
        ensures
            outpoint@ == self@.outpoint(),
    {
        OutPoint { txid: self.inner.txid(), vout: self.vout }
    }

    /// The two keys that share the output.
    pub fn keys(&self) -> (keys: (PublicKey, PublicKey))
        ensures
            keys.0@ == self@.a,
            keys.1@ == self@.b,
    {
        (self.a, self.b)
    }
}

} // verus!
