//! The transaction that pays the cancelled bitcoin to the seller once the
//! punish timelock has run out.

use crate::bitcoin::address::Address;
use crate::bitcoin::cancel::{TxCancel, TxCancelView};
use crate::bitcoin::error::{result_view, Error};
use crate::bitcoin::keys::{PublicKey, SigHash, Signature};
use crate::bitcoin::timelocks::PunishTimelock;
use crate::bitcoin::shared::{
    build_shared_script, lemma_signing_keeps_txid, shared_script, sign_single_input,
    signed_transaction, TX_FEE,
};
use crate::bitcoin::transaction::{
    sighash_of, txid_of, Transaction, TransactionView, TxIn, TxInView, TxOut, TxOutView, Txid,
};
use vstd::prelude::*;
use vstd::slice::slice_to_vec;

verus! {

pub struct TxPunish {
    inner: Transaction,
    digest: SigHash,
    spent_a: PublicKey,
    spent_b: PublicKey,
}

pub struct TxPunishView {
    /// The transaction without signatures.
    pub transaction: TransactionView,
    /// What a signature on its input commits to.
    pub digest: Seq<u8>,
    /// The keys that share the output it spends.
    pub spent_a: Seq<u8>,
    pub spent_b: Seq<u8>,
}

impl TxPunishView {
    /// One input without signatures, and one output.
    pub open spec fn wf(self) -> bool {
        &&& self.transaction.input.len() == 1
        &&& self.transaction.input[0].script_sig.len() == 0
        &&& self.transaction.output.len() == 1
    }
}

impl View for TxPunish {
    type V = TxPunishView;

    closed spec fn view(&self) -> TxPunishView {
        TxPunishView {
            transaction: self.inner@,
            digest: self.digest@,
            spent_a: self.spent_a@,
            spent_b: self.spent_b@,
        }
    }
}

/// The punish transaction for a cancel transaction: it spends that
/// transaction's output, can be mined `timelock` blocks after it, and pays
/// the amount less the fee to `punish_script`.
pub open spec fn tx_punish_of(cancel: TxCancelView, punish_script: Seq<u8>, timelock: u32) -> TxPunishView {
    let transaction = TransactionView {
        version: 2,
        lock_time: 0,
        input: seq![
            TxInView {
                previous_output: cancel.outpoint(),
                script_sig: Seq::empty(),
                sequence: timelock,
                witness: Seq::empty(),
            },
        ],
        output: seq![
            TxOutView { value: (cancel.amount() - TX_FEE) as u64, script_pubkey: punish_script },
        ],
    };
    TxPunishView {
        transaction,
        digest: sighash_of(transaction, 0, shared_script(cancel.a, cancel.b), cancel.amount()),
        spent_a: cancel.a,
        spent_b: cancel.b,
    }
}

impl TxPunish {
    #[verifier::type_invariant]
    spec fn inv(self) -> bool {
        self@.wf()
    }

    pub fn new(
        tx_cancel: &TxCancel,
        punish_address: &Address,
        punish_timelock: PunishTimelock,
    ) -> (tx_punish: TxPunish)
        ensures
            tx_punish@ == tx_punish_of(tx_cancel@, punish_address@, punish_timelock.0),
            tx_punish@.wf(),
    {
        let amount = tx_cancel.amount();
        let (spent_a, spent_b) = tx_cancel.keys();
        let input = TxIn {
            previous_output: tx_cancel.as_outpoint(),
            script_sig: Vec::new(),
            sequence: punish_timelock.0,
            witness: Vec::new(),
        };
        let output = TxOut {
            value: amount - TX_FEE,
            script_pubkey: slice_to_vec(punish_address.script_pubkey.as_slice()),
        };
        let mut inputs: Vec<TxIn> = Vec::new();
        inputs.push(input);
        let mut outputs: Vec<TxOut> = Vec::new();
        outputs.push(output);
        let inner = Transaction { version: 2, lock_time: 0, input: inputs, output: outputs };
        let script = build_shared_script(&spent_a, &spent_b);
        let digest = inner.signature_hash(0, script.as_slice(), amount);
        proof {
            let want = tx_punish_of(tx_cancel@, punish_address@, punish_timelock.0);
            assert(inner@.input[0].witness =~= Seq::<Seq<u8>>::empty());
            assert(inner@.input[0].script_sig =~= Seq::<u8>::empty());
            assert(inner@.input[0] == want.transaction.input[0]);
            assert(inner@.input =~= want.transaction.input);
            assert(inner@.output =~= want.transaction.output);
            assert(inner@ == want.transaction);
        }
        TxPunish { inner, digest, spent_a, spent_b }
    }

    /// The transaction, without signatures of its own.
    pub fn transaction(&self) -> (transaction: &Transaction)
        ensures
            transaction@ == self@.transaction,
    {
        &self.inner
    }

    /// The transaction's identifier.
    pub fn txid(&self) -> (txid: Txid)
        ensures
            txid@ == txid_of(self@.transaction),
    {
        self.inner.txid()
    }

    /// What a signature on the transaction commits to.
    pub fn digest(&self) -> (digest: SigHash)
        ensures
            digest@ == self@.digest,
    {
        self.digest
    }

    /// The transaction with both signatures, ready to be broadcast. Each
    /// argument is a key with its signature; the two keys have to be those
    /// of the output it spends, in their order, and each signature has to
    /// verify. The identifier stays what it was.
    pub fn add_signatures(
        &self,
        first: (PublicKey, Signature),
        second: (PublicKey, Signature),
    ) -> (signed: Result<Transaction, Error>)
        ensures
            result_view(signed) == signed_transaction(
                self@.transaction,
                self@.digest,
                self@.spent_a,
                self@.spent_b,
                first.0@,
                first.1@,
                second.0@,
                second.1@,
            ),
            signed matches Ok(tx) ==> txid_of(tx@) == txid_of(self@.transaction),
    {
        proof {
            use_type_invariant(self);
        }
        let signed = sign_single_input(
            &self.inner,
            &self.digest,
            &self.spent_a,
            &self.spent_b,
            &first.0,
            &first.1,
            &second.0,
            &second.1,
        );
        proof {
            if signed is Ok {
                lemma_signing_keeps_txid(
                    self@.transaction,
                    self@.digest,
                    self@.spent_a,
                    self@.spent_b,
                    first.0@,
                    first.1@,
                    second.0@,
                    second.1@,
                );
            }
        }
        signed
    }
}

} // verus!
