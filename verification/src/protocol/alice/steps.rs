//! The steps of Alice's side once both parties' keys and Bob's lock
//! transaction are known. Each step that has to wait for a wallet or for the
//! transport is a function from where the step stands and what was just
//! reported to where it stands next and what is to be done; whoever drives
//! it performs that and reports back.

use crate::bitcoin::cancel::{tx_cancel_of, TxCancelView};
use crate::bitcoin::error::Error;
use crate::bitcoin::keys::{
    adaptor_encrypted_signature, adaptor_recovered_key, ecdsa_signature, ecdsa_verifies,
    secp256k1_public_key,
};
use crate::bitcoin::lock::TxLockView;
use crate::bitcoin::refund::tx_refund_of;
use crate::bitcoin::shared::{
    extracted, lemma_signed_transaction_yields_signatures, lemma_signing_keeps_txid,
    signed_transaction,
};
use crate::bitcoin::timelocks::height_after;
use crate::bitcoin::transaction::{txid_of, TransactionView};
use crate::bitcoin::{
    recover, Address, BlockHeight, CancelTimelock, EncryptedSignature, PublicKey, PunishTimelock,
    SecretKey, Signature, Transaction, TxCancel, TxLock, TxRefund, Txid,
};
use crate::bytes::be_nat;
use crate::monero;
use crate::monero::{ed25519_base_multiple, ed25519_sum, group_order};
use crate::protocol::alice::state::{State3, TransferProof};
use crate::protocol::bob;
use vstd::prelude::*;

verus! {

/// Why a step was given up.
#[derive(Debug, Clone, Copy, PartialEq, Eq, Structural)]
pub enum Failure {
    /// A wallet or the transport reported that it failed.
    Reported,
    /// Something was reported that the step was not waiting for.
    UnexpectedEvent,
    /// A timelock would run out above every height that the chain can reach.
    HeightOverflow,
    /// The cancel transaction could not be signed.
    Signing(Error),
}

/// How far the locking of the monero has come.
#[derive(Debug, Clone, Copy)]
pub enum LockXmrState {
    /// Nothing was transferred yet.
    NotLocked,
    /// The monero is locked; Bob has not been shown the proof yet.
    Locked(monero::TransferProof),
    /// Bob has the proof.
    ProofSent,
}

/// What is reported while the monero is being locked.
#[derive(Debug, Clone, Copy)]
pub enum LockXmrEvent {
    /// The step is entered: at first, or again after a restart.
    Entered,
    /// The wallet made the transfer.
    Transferred(monero::TransferProof),
    /// The proof reached Bob.
    ProofDelivered,
    /// The wallet or the transport failed.
    Failed,
}

/// What is to be done next to lock the monero.
#[derive(Debug, Clone, Copy)]
pub enum LockXmrAction {
    /// Have the wallet pay `amount` to the two keys.
    Transfer { public_spend_key: monero::PublicKey, public_view_key: monero::PublicKey, amount: monero::Amount },
    /// Send Bob the proof.
    SendTransferProof(TransferProof),
    /// The step is done.
    Finish,
    /// The step is given up.
    Abort(Failure),
}

/// The public spend key of the output that both parties hold together: the
/// sum of Alice's share, which belongs to her scalar, and Bob's.
pub open spec fn joint_spend_key(s_a: nat, bob_share: Seq<u8>) -> Seq<u8> {
    ed25519_sum(ed25519_base_multiple(s_a), bob_share)
}

/// One move of the locking: from `state`, on `event`, to `next` with
/// `action`. The transfer is asked for only while nothing is locked; once the
/// proof of it is at hand, entering the step again only sends the proof.
pub open spec fn lock_xmr_transition(
    spend_key: Seq<u8>,
    view_key: Seq<u8>,
    amount: monero::Amount,
    state: LockXmrState,
    event: LockXmrEvent,
    next: LockXmrState,
    action: LockXmrAction,
) -> bool {
    match (state, event) {
        (LockXmrState::NotLocked, LockXmrEvent::Entered) => {
            &&& next == state
            &&& action matches LockXmrAction::Transfer {
                public_spend_key,
                public_view_key,
                amount: sent,
            }
            &&& public_spend_key@ == spend_key
            &&& public_view_key@ == view_key
            &&& sent == amount
        },
        (LockXmrState::NotLocked, LockXmrEvent::Transferred(proof)) => {
            &&& next == LockXmrState::Locked(proof)
            &&& action == LockXmrAction::SendTransferProof(TransferProof { tx_lock_proof: proof })
        },
        (LockXmrState::Locked(proof), LockXmrEvent::Entered) => {
            &&& next == state
            &&& action == LockXmrAction::SendTransferProof(TransferProof { tx_lock_proof: proof })
        },
        (LockXmrState::Locked(_), LockXmrEvent::ProofDelivered) => {
            &&& next == LockXmrState::ProofSent
            &&& action == LockXmrAction::Finish
        },
        (LockXmrState::ProofSent, LockXmrEvent::Entered) => {
            &&& next == state
            &&& action == LockXmrAction::Finish
        },
        (_, LockXmrEvent::Failed) => {
            &&& next == state
            &&& action == LockXmrAction::Abort(Failure::Reported)
        },
        _ => {
            &&& next == state
            &&& action == LockXmrAction::Abort(Failure::UnexpectedEvent)
        },
    }
}

/// Locks the monero in an output that both parties hold together, and shows
/// Bob that it is locked.
pub fn lock_xmr(state3: &State3, state: LockXmrState, event: LockXmrEvent) -> (result: (
    LockXmrState,
    LockXmrAction,
))
    ensures
        lock_xmr_transition(
            joint_spend_key(state3.s_a@, state3.S_b_monero@),
            ed25519_base_multiple(state3.v@),
            state3.xmr,
            state,
            event,
            result.0,
            result.1,
        ),
{
    match (state, event) {
        (LockXmrState::NotLocked, LockXmrEvent::Entered) => {
            let own_share = monero::PublicKey::from_private_key(
                &monero::PrivateKey { scalar: state3.s_a },
            );
            let public_spend_key = own_share.add(&state3.S_b_monero);
            let public_view_key = state3.v.public();
            (state, LockXmrAction::Transfer { public_spend_key, public_view_key, amount: state3.xmr })
        },
        (LockXmrState::NotLocked, LockXmrEvent::Transferred(proof)) => (
            LockXmrState::Locked(proof),
            LockXmrAction::SendTransferProof(TransferProof { tx_lock_proof: proof }),
        ),
        (LockXmrState::Locked(proof), LockXmrEvent::Entered) => (
            state,
            LockXmrAction::SendTransferProof(TransferProof { tx_lock_proof: proof }),
        ),
        (LockXmrState::Locked(_), LockXmrEvent::ProofDelivered) => (
            LockXmrState::ProofSent,
            LockXmrAction::Finish,
        ),
        (LockXmrState::ProofSent, LockXmrEvent::Entered) => (state, LockXmrAction::Finish),
        (_, LockXmrEvent::Failed) => (state, LockXmrAction::Abort(Failure::Reported)),
        _ => (state, LockXmrAction::Abort(Failure::UnexpectedEvent)),
    }
}

/// What is reported while Alice waits for Bob's encrypted signature.
#[derive(Debug, Clone, Copy)]
pub enum EncryptedSignatureEvent {
    /// The step is entered.
    Entered,
    /// Bob's message came in.
    Received(bob::EncryptedSignature),
    /// The transport failed.
    Failed,
}

/// What is to be done next to get Bob's encrypted signature.
#[derive(Debug, Clone, Copy)]
pub enum EncryptedSignatureAction {
    /// Wait for Bob's message.
    Receive,
    /// The step is done, with the encrypted signature on the redeem
    /// transaction.
    Return(EncryptedSignature),
    /// The step is given up.
    Abort(Failure),
}

/// What follows from `event` while Alice waits for Bob's encrypted signature.
pub open spec fn encrypted_signature_action(event: EncryptedSignatureEvent) -> EncryptedSignatureAction {
    match event {
        EncryptedSignatureEvent::Entered => EncryptedSignatureAction::Receive,
        EncryptedSignatureEvent::Received(msg) => EncryptedSignatureAction::Return(
            msg.tx_redeem_encsig,
        ),
        EncryptedSignatureEvent::Failed => EncryptedSignatureAction::Abort(Failure::Reported),
    }
}

/// Waits for Bob's last message and takes his encrypted signature out of it.
pub fn wait_for_bitcoin_encrypted_signature(event: EncryptedSignatureEvent) -> (action:
    EncryptedSignatureAction)
    ensures
        action == encrypted_signature_action(event),
{
    match event {
        EncryptedSignatureEvent::Entered => EncryptedSignatureAction::Receive,
        EncryptedSignatureEvent::Received(msg) => EncryptedSignatureAction::Return(
            msg.tx_redeem_encsig,
        ),
        EncryptedSignatureEvent::Failed => EncryptedSignatureAction::Abort(Failure::Reported),
    }
}

/// How far the publishing of the cancel transaction has come.
#[derive(Debug, Clone, Copy, PartialEq, Eq, Structural)]
pub enum CancelState {
    /// The height of the lock transaction is not known yet.
    Started,
    /// The cancel timelock runs out at `expiry`.
    WaitingForExpiry { expiry: BlockHeight },
    /// The chain has reached the expiry.
    Expired,
    /// The cancel transaction is on its way or on the chain.
    Finished,
}

/// What is reported while the cancel transaction is being published.
#[derive(Debug, Clone, Copy, PartialEq, Eq, Structural)]
pub enum CancelEvent {
    /// The step is entered: at first, or again after a restart.
    Entered,
    /// The lock transaction was mined at this height.
    TxHeight(BlockHeight),
    /// The chain stands at this height.
    ChainHeight(BlockHeight),
    /// The cancel transaction is known to the wallet.
    Found,
    /// The cancel transaction is not known to the wallet.
    NotFound,
    /// The cancel transaction was broadcast, or the network knows it already.
    Broadcasted,
    /// The wallet failed.
    Failed,
}

/// What is to be done next to publish the cancel transaction.
pub enum CancelAction {
    /// Ask for the height at which the transaction was mined.
    GetTxHeight(Txid),
    /// Report the chain's height, now and whenever it has grown, until it has
    /// reached this one.
    AwaitHeight(BlockHeight),
    /// Ask whether the transaction is known.
    LookUp(Txid),
    /// Broadcast the signed transaction.
    Broadcast(Transaction),
    /// The step is done, with the cancel transaction.
    Return(TxCancel),
    /// The step is given up.
    Abort(Failure),
}

/// The cancel transaction signed by Alice and by Bob, as it is broadcast, or
/// why it cannot be had.
pub open spec fn signed_cancel(cancel: TxCancelView, a: Seq<u8>, bob_key: Seq<u8>, bob_sig: Seq<u8>) -> Result<
    TransactionView,
    Error,
> {
    signed_transaction(
        cancel.transaction,
        cancel.digest,
        cancel.spent_a,
        cancel.spent_b,
        secp256k1_public_key(a),
        ecdsa_signature(a, cancel.digest),
        bob_key,
        bob_sig,
    )
}

/// One move of the publishing: from `state`, on `event`, to `next` with
/// `action`. `a` is Alice's secret key, `bob_key` and `bob_sig` are Bob's
/// public key and his signature on the cancel transaction.
pub open spec fn cancel_transition(
    lock: TxLockView,
    a: Seq<u8>,
    bob_key: Seq<u8>,
    timelock: CancelTimelock,
    bob_sig: Seq<u8>,
    state: CancelState,
    event: CancelEvent,
    next: CancelState,
    action: CancelAction,
) -> bool {
    let cancel = tx_cancel_of(lock, timelock.0, secp256k1_public_key(a), bob_key);
    match (state, event) {
        (_, CancelEvent::Failed) => {
            &&& next == state
            &&& action == CancelAction::Abort(Failure::Reported)
        },
        (CancelState::Started, CancelEvent::Entered) => {
            &&& next == state
            &&& action matches CancelAction::GetTxHeight(txid)
            &&& txid@ == txid_of(lock.transaction)
        },
        (CancelState::Started, CancelEvent::TxHeight(height)) => match height_after(
            height,
            timelock.0,
        ) {
            Some(expiry) => {
                &&& next == CancelState::WaitingForExpiry { expiry }
                &&& action == CancelAction::AwaitHeight(expiry)
            },
            None => {
                &&& next == state
                &&& action == CancelAction::Abort(Failure::HeightOverflow)
            },
        },
        (CancelState::WaitingForExpiry { expiry }, CancelEvent::Entered) => {
            &&& next == state
            &&& action == CancelAction::AwaitHeight(expiry)
        },
        (CancelState::WaitingForExpiry { expiry }, CancelEvent::ChainHeight(height)) => if height.0
            >= expiry.0 {
            &&& next == CancelState::Expired
            &&& action matches CancelAction::LookUp(txid)
            &&& txid@ == txid_of(cancel.transaction)
        } else {
            &&& next == state
            &&& action == CancelAction::AwaitHeight(expiry)
        },
        (CancelState::Expired, CancelEvent::Entered) => {
            &&& next == state
            &&& action matches CancelAction::LookUp(txid)
            &&& txid@ == txid_of(cancel.transaction)
        },
        (CancelState::Expired, CancelEvent::NotFound) => match signed_cancel(
            cancel,
            a,
            bob_key,
            bob_sig,
        ) {
            Ok(signed) => {
                &&& next == state
                &&& action matches CancelAction::Broadcast(tx)
                &&& tx@ == signed
            },
            Err(e) => {
                &&& next == state
                &&& action == CancelAction::Abort(Failure::Signing(e))
            },
        },
        (CancelState::Expired, CancelEvent::Found) | (
            CancelState::Expired,
            CancelEvent::Broadcasted,
        ) | (CancelState::Finished, CancelEvent::Entered) => {
            &&& next == CancelState::Finished
            &&& action matches CancelAction::Return(tx_cancel)
            &&& tx_cancel@ == cancel
        },
        _ => {
            &&& next == state
            &&& action == CancelAction::Abort(Failure::UnexpectedEvent)
        },
    }
}

/// Publishes the cancel transaction once the cancel timelock has run out,
/// unless it is on the chain or on its way already.
#[allow(non_snake_case)]
pub fn publish_cancel_transaction(
    tx_lock: &TxLock,
    a: &SecretKey,
    B: PublicKey,
    cancel_timelock: CancelTimelock,
    tx_cancel_sig_bob: Signature,
    state: CancelState,
    event: CancelEvent,
) -> (result: (CancelState, CancelAction))
    ensures
        cancel_transition(
            tx_lock@,
            a@,
            B@,
            cancel_timelock,
            tx_cancel_sig_bob@,
            state,
            event,
            result.0,
            result.1,
        ),
{
    match (state, event) {
        (_, CancelEvent::Failed) => (state, CancelAction::Abort(Failure::Reported)),
        (CancelState::Started, CancelEvent::Entered) => (
            state,
            CancelAction::GetTxHeight(tx_lock.txid()),
        ),
        (CancelState::Started, CancelEvent::TxHeight(height)) => {
            match height.after_cancel_timelock(cancel_timelock) {
                Some(expiry) => (
                    CancelState::WaitingForExpiry { expiry },
                    CancelAction::AwaitHeight(expiry),
                ),
                None => (state, CancelAction::Abort(Failure::HeightOverflow)),
            }
        },
        (CancelState::WaitingForExpiry { expiry }, CancelEvent::Entered) => (
            state,
            CancelAction::AwaitHeight(expiry),
        ),
        (CancelState::WaitingForExpiry { expiry }, CancelEvent::ChainHeight(height)) => {
            if height.has_reached(expiry) {
                let tx_cancel = TxCancel::new(tx_lock, cancel_timelock, a.public(), B);
                (CancelState::Expired, CancelAction::LookUp(tx_cancel.txid()))
            } else {
                (state, CancelAction::AwaitHeight(expiry))
            }
        },
        (CancelState::Expired, CancelEvent::Entered) => {
            let tx_cancel = TxCancel::new(tx_lock, cancel_timelock, a.public(), B);
            (state, CancelAction::LookUp(tx_cancel.txid()))
        },
        (CancelState::Expired, CancelEvent::NotFound) => {
            let tx_cancel = TxCancel::new(tx_lock, cancel_timelock, a.public(), B);
            let sig_a = a.sign(tx_cancel.digest());
            match tx_cancel.add_signatures((a.public(), sig_a), (B, tx_cancel_sig_bob)) {
                Ok(signed) => (state, CancelAction::Broadcast(signed)),
                Err(e) => (state, CancelAction::Abort(Failure::Signing(e))),
            }
        },
        (CancelState::Expired, CancelEvent::Found) | (
            CancelState::Expired,
            CancelEvent::Broadcasted,
        ) | (CancelState::Finished, CancelEvent::Entered) => {
            let tx_cancel = TxCancel::new(tx_lock, cancel_timelock, a.public(), B);
            (CancelState::Finished, CancelAction::Return(tx_cancel))
        },
        _ => (state, CancelAction::Abort(Failure::UnexpectedEvent)),
    }
}

/// What is reported while Alice waits to see whether Bob takes his refund.
pub enum RefundEvent {
    /// The step is entered.
    Entered,
    /// The chain stands at this height.
    ChainHeight(BlockHeight),
    /// The refund transaction was seen.
    RefundSeen(Transaction),
    /// The wallet failed.
    Failed,
}

/// What is to be done next while Alice waits for Bob's refund.
pub enum RefundAction {
    /// Report the refund transaction when it is seen, in the mempool or in a
    /// block, and the chain's height, now and whenever it has grown, until it
    /// has reached `punish_height`.
    Watch { punish_height: BlockHeight, refund_txid: Txid },
    /// The step is done, with the refund transaction and, if Bob published
    /// it before the punish timelock ran out, with what he published.
    Return(TxRefund, Option<Transaction>),
    /// The step is given up.
    Abort(Failure),
}

/// What follows from `event` while Alice waits for Bob's refund: whichever
/// is reported first, the refund transaction or a height at which the punish
/// timelock has run out, ends the step.
pub open spec fn refund_watch(
    cancel: TxCancelView,
    cancel_tx_height: BlockHeight,
    timelock: PunishTimelock,
    refund_script: Seq<u8>,
    event: RefundEvent,
    action: RefundAction,
) -> bool {
    let refund = tx_refund_of(cancel, refund_script);
    match event {
        RefundEvent::Failed => action == RefundAction::Abort(Failure::Reported),
        RefundEvent::RefundSeen(published) => {
            &&& action matches RefundAction::Return(tx_refund, seen)
            &&& tx_refund@ == refund
            &&& seen == Some(published)
        },
        RefundEvent::Entered => match height_after(cancel_tx_height, timelock.0) {
            Some(expiry) => {
                &&& action matches RefundAction::Watch { punish_height, refund_txid }
                &&& punish_height == expiry
                &&& refund_txid@ == txid_of(refund.transaction)
            },
            None => action == RefundAction::Abort(Failure::HeightOverflow),
        },
        RefundEvent::ChainHeight(height) => match height_after(cancel_tx_height, timelock.0) {
            Some(expiry) => if height.0 >= expiry.0 {
                &&& action matches RefundAction::Return(tx_refund, seen)
                &&& tx_refund@ == refund
                &&& seen is None
            } else {
                &&& action matches RefundAction::Watch { punish_height, refund_txid }
                &&& punish_height == expiry
                &&& refund_txid@ == txid_of(refund.transaction)
            },
            None => action == RefundAction::Abort(Failure::HeightOverflow),
        },
    }
}

/// Waits until Bob's refund transaction is seen or the punish timelock has
/// run out, whichever comes first.
pub fn wait_for_bitcoin_refund(
    tx_cancel: &TxCancel,
    cancel_tx_height: BlockHeight,
    punish_timelock: PunishTimelock,
    refund_address: &Address,
    event: RefundEvent,
) -> (action: RefundAction)
    ensures
        refund_watch(
            tx_cancel@,
            cancel_tx_height,
            punish_timelock,
            refund_address@,
            event,
            action,
        ),
{
    match event {
        RefundEvent::Failed => RefundAction::Abort(Failure::Reported),
        RefundEvent::RefundSeen(published) => {
            let tx_refund = TxRefund::new(tx_cancel, refund_address);
            RefundAction::Return(tx_refund, Some(published))
        },
        RefundEvent::Entered => match cancel_tx_height.after_punish_timelock(punish_timelock) {
            Some(punish_height) => {
                let tx_refund = TxRefund::new(tx_cancel, refund_address);
                RefundAction::Watch { punish_height, refund_txid: tx_refund.txid() }
            },
            None => RefundAction::Abort(Failure::HeightOverflow),
        },
        RefundEvent::ChainHeight(height) => match cancel_tx_height.after_punish_timelock(
            punish_timelock,
        ) {
            Some(punish_height) => {
                let tx_refund = TxRefund::new(tx_cancel, refund_address);
                if height.has_reached(punish_height) {
                    RefundAction::Return(tx_refund, None)
                } else {
                    RefundAction::Watch { punish_height, refund_txid: tx_refund.txid() }
                }
            },
            None => RefundAction::Abort(Failure::HeightOverflow),
        },
    }
}

/// The key to the locked monero: the sum of Alice's share and of Bob's, which
/// the refund transaction that he published gave away.
pub open spec fn joint_private_key(s_a: nat, s_b: Seq<u8>) -> nat {
    (s_a + be_nat(s_b)) % group_order()
}

/// The key to the locked monero that the published refund transaction gives
/// Alice, or why it gives none. The signature of her own key is read off the
/// transaction: Bob had it by decrypting the encrypted signature that she
/// made for him under `bob_share`, the key of his scalar. From the two his
/// scalar is recovered.
pub open spec fn extracted_monero_key(
    published: TransactionView,
    refund_digest: Seq<u8>,
    s_a: nat,
    a: Seq<u8>,
    bob_share: Seq<u8>,
) -> Result<nat, Error> {
    match extracted(published, secp256k1_public_key(a), refund_digest) {
        Err(e) => Err(e),
        Ok(sig) => match adaptor_recovered_key(
            bob_share,
            sig,
            adaptor_encrypted_signature(a, bob_share, refund_digest),
        ) {
            Some(s_b) => Ok(joint_private_key(s_a, s_b)),
            None => Err(Error::RecoveryFailed),
        },
    }
}

/// Adds to Alice's share of the key to the locked monero the share of Bob's
/// that was recovered.
pub fn joint_key_from_recovered(s_a: monero::Scalar, s_b: SecretKey) -> (spend_key:
    monero::PrivateKey)
    ensures
        spend_key@ == joint_private_key(s_a@, s_b@),
{
    let s_a = monero::PrivateKey { scalar: s_a };
    let s_b = monero::private_key_from_secp256k1_scalar(s_b.to_scalar());
    s_a.add(&s_b)
}

/// Takes the key to the locked monero from the refund transaction that Bob
/// published.
#[allow(non_snake_case)]
pub fn extract_monero_private_key(
    published_refund_tx: Transaction,
    tx_refund: &TxRefund,
    s_a: monero::Scalar,
    a: SecretKey,
    S_b_bitcoin: PublicKey,
) -> (spend_key: Result<monero::PrivateKey, Error>)
    ensures
        match spend_key {
            Ok(key) => extracted_monero_key(
                published_refund_tx@,
                tx_refund@.digest,
                s_a@,
                a@,
                S_b_bitcoin@,
            ) == Ok::<nat, Error>(key@),
            Err(e) => extracted_monero_key(
                published_refund_tx@,
                tx_refund@.digest,
                s_a@,
                a@,
                S_b_bitcoin@,
            ) == Err::<nat, Error>(e),
        },
{
    let tx_refund_sig = match tx_refund.extract_signature_by_key(published_refund_tx, a.public()) {
        Ok(sig) => sig,
        Err(e) => {
            return Err(e);
        },
    };
    let tx_refund_encsig = a.encsign(S_b_bitcoin, tx_refund.digest());
    match recover(S_b_bitcoin, tx_refund_sig, tx_refund_encsig) {
        Ok(s_b) => Ok(joint_key_from_recovered(s_a, s_b)),
        Err(e) => Err(e),
    }
}

/// Where Bob publishes the refund transaction with the signature that he
/// decrypted from Alice's encrypted signature, Alice has the key to the
/// locked monero: her own share and the share that his decryption gave away.
/// Left out is a signature of Bob's that verifies against Alice's key too,
/// since the first signature that verifies is the one that is read.
pub proof fn lemma_published_refund_gives_the_joint_key(
    refund: TransactionView,
    refund_digest: Seq<u8>,
    s_a: nat,
    a: Seq<u8>,
    bob_key: Seq<u8>,
    bob_share: Seq<u8>,
    sig_a: Seq<u8>,
    sig_b: Seq<u8>,
    s_b: Seq<u8>,
)
    requires
        refund.input.len() == 1,
        sig_a.len() == 64,
        sig_b.len() == 64,
        signed_transaction(
            refund,
            refund_digest,
            secp256k1_public_key(a),
            bob_key,
            secp256k1_public_key(a),
            sig_a,
            bob_key,
            sig_b,
        ) is Ok,
        !ecdsa_verifies(secp256k1_public_key(a), refund_digest, sig_b),
        adaptor_recovered_key(
            bob_share,
            sig_a,
            adaptor_encrypted_signature(a, bob_share, refund_digest),
        ) == Some(s_b),
    ensures
        extracted_monero_key(
            signed_transaction(
                refund,
                refund_digest,
                secp256k1_public_key(a),
                bob_key,
                secp256k1_public_key(a),
                sig_a,
                bob_key,
                sig_b,
            )->Ok_0,
            refund_digest,
            s_a,
            a,
            bob_share,
        ) == Ok::<nat, Error>(joint_private_key(s_a, s_b)),
{
    lemma_signed_transaction_yields_signatures(
        refund,
        refund_digest,
        secp256k1_public_key(a),
        bob_key,
        sig_a,
        sig_b,
    );
}

/// Whether the three sequences are a run of the locking: each event takes
/// the state before it to the state after it, with its action.
pub open spec fn lock_xmr_run(
    spend_key: Seq<u8>,
    view_key: Seq<u8>,
    amount: monero::Amount,
    states: Seq<LockXmrState>,
    events: Seq<LockXmrEvent>,
    actions: Seq<LockXmrAction>,
) -> bool {
    &&& states.len() == events.len() + 1
    &&& actions.len() == events.len()
    &&& forall|i: int|
        0 <= i < events.len() ==> #[trigger] lock_xmr_transition(
            spend_key,
            view_key,
            amount,
            states[i],
            events[i],
            states[i + 1],
            actions[i],
        )
}

proof fn lemma_locked_stays_locked(
    spend_key: Seq<u8>,
    view_key: Seq<u8>,
    amount: monero::Amount,
    states: Seq<LockXmrState>,
    events: Seq<LockXmrEvent>,
    actions: Seq<LockXmrAction>,
    n: int,
)
    requires
        lock_xmr_run(spend_key, view_key, amount, states, events, actions),
        !(states[0] is NotLocked),
        0 <= n <= events.len(),
    ensures
        !(states[n] is NotLocked),
    decreases n,
{
    if n > 0 {
        lemma_locked_stays_locked(spend_key, view_key, amount, states, events, actions, n - 1);
        assert(lock_xmr_transition(
            spend_key,
            view_key,
            amount,
            states[n - 1],
            events[n - 1],
            states[n - 1 + 1],
            actions[n - 1],
        ));
    }
}

/// Once the monero is locked, no run of the step asks for a transfer again,
/// whatever is reported and however often the step is entered.
pub proof fn lemma_locked_monero_is_not_sent_again(
    spend_key: Seq<u8>,
    view_key: Seq<u8>,
    amount: monero::Amount,
    states: Seq<LockXmrState>,
    events: Seq<LockXmrEvent>,
    actions: Seq<LockXmrAction>,
    i: int,
)
    requires
        lock_xmr_run(spend_key, view_key, amount, states, events, actions),
        !(states[0] is NotLocked),
        0 <= i < actions.len(),
    ensures
        !(actions[i] is Transfer),
{
    lemma_locked_stays_locked(spend_key, view_key, amount, states, events, actions, i);
    assert(lock_xmr_transition(
        spend_key,
        view_key,
        amount,
        states[i],
        events[i],
        states[i + 1],
        actions[i],
    ));
}

/// Entering the step again changes nothing: the state stays, and the action
/// is the one that the state calls for.
pub proof fn lemma_entering_again_keeps_the_state(
    spend_key: Seq<u8>,
    view_key: Seq<u8>,
    amount: monero::Amount,
    state: LockXmrState,
    next: LockXmrState,
    action: LockXmrAction,
)
    requires
        lock_xmr_transition(spend_key, view_key, amount, state, LockXmrEvent::Entered, next, action),
    ensures
        next == state,
        state is NotLocked <==> action is Transfer,
{
}

/// Whether the three sequences are a run of the publishing: each event takes
/// the state before it to the state after it, with its action.
pub open spec fn cancel_run(
    lock: TxLockView,
    a: Seq<u8>,
    bob_key: Seq<u8>,
    timelock: CancelTimelock,
    bob_sig: Seq<u8>,
    states: Seq<CancelState>,
    events: Seq<CancelEvent>,
    actions: Seq<CancelAction>,
) -> bool {
    &&& states.len() == events.len() + 1
    &&& actions.len() == events.len()
    &&& forall|i: int|
        0 <= i < events.len() ==> #[trigger] cancel_transition(
            lock,
            a,
            bob_key,
            timelock,
            bob_sig,
            states[i],
            events[i],
            states[i + 1],
            actions[i],
        )
}

/// Whether event `k` reports the height of the lock transaction and gives
/// `expiry` as the height at which the timelock runs out.
pub open spec fn lock_height_at(
    events: Seq<CancelEvent>,
    k: int,
    timelock: CancelTimelock,
    expiry: BlockHeight,
) -> bool {
    events[k] matches CancelEvent::TxHeight(height) && height.0 + timelock.0 == expiry.0
}

/// Whether event `k` reports the height of the lock transaction and the
/// later event `j` a height of the chain that is at least the timelock above
/// it.
pub open spec fn expiry_at(events: Seq<CancelEvent>, k: int, j: int, timelock: CancelTimelock) -> bool {
    &&& 0 <= k < j < events.len()
    &&& events[k] matches CancelEvent::TxHeight(locked)
    &&& events[j] matches CancelEvent::ChainHeight(height)
    &&& height.0 >= locked.0 + timelock.0
}

/// Whether the chain was reported to have reached the expiry of the cancel
/// timelock before event `n`.
pub open spec fn expiry_seen_before(events: Seq<CancelEvent>, n: int, timelock: CancelTimelock) -> bool {
    exists|k: int, j: int| j < n && #[trigger] expiry_at(events, k, j, timelock)
}

spec fn cancel_invariant(
    events: Seq<CancelEvent>,
    timelock: CancelTimelock,
    state: CancelState,
    n: int,
) -> bool {
    match state {
        CancelState::Started => true,
        CancelState::WaitingForExpiry { expiry } => exists|k: int|
            0 <= k < n && #[trigger] lock_height_at(events, k, timelock, expiry),
        _ => expiry_seen_before(events, n, timelock),
    }
}

proof fn lemma_cancel_invariant(
    lock: TxLockView,
    a: Seq<u8>,
    bob_key: Seq<u8>,
    timelock: CancelTimelock,
    bob_sig: Seq<u8>,
    states: Seq<CancelState>,
    events: Seq<CancelEvent>,
    actions: Seq<CancelAction>,
    n: int,
)
    requires
        cancel_run(lock, a, bob_key, timelock, bob_sig, states, events, actions),
        states[0] == CancelState::Started,
        0 <= n <= events.len(),
    ensures
        cancel_invariant(events, timelock, states[n], n),
    decreases n,
{
    if n > 0 {
        let m = n - 1;
        lemma_cancel_invariant(lock, a, bob_key, timelock, bob_sig, states, events, actions, m);
        assert(cancel_transition(
            lock,
            a,
            bob_key,
            timelock,
            bob_sig,
            states[m],
            events[m],
            states[m + 1],
            actions[m],
        ));
        match (states[m], events[m]) {
            (CancelState::Started, CancelEvent::TxHeight(height)) => {
                if let CancelState::WaitingForExpiry { expiry } = states[n] {
                    assert(lock_height_at(events, m, timelock, expiry));
                }
            },
            (CancelState::WaitingForExpiry { expiry }, CancelEvent::ChainHeight(height)) => {
                let k = choose|k: int| 0 <= k < m && lock_height_at(events, k, timelock, expiry);
                if height.0 >= expiry.0 {
                    assert(expiry_at(events, k, m, timelock));
                } else {
                    assert(lock_height_at(events, k, timelock, expiry));
                }
            },
            (CancelState::WaitingForExpiry { expiry }, _) => {
                let k = choose|k: int| 0 <= k < m && lock_height_at(events, k, timelock, expiry);
                assert(lock_height_at(events, k, timelock, expiry));
            },
            (CancelState::Started, _) => {},
            _ => {
                let (k, j) = choose|k: int, j: int| j < m && #[trigger] expiry_at(events, k, j, timelock);
                assert(expiry_at(events, k, j, timelock));
            },
        }
    }
}

/// In a run from the start, the cancel transaction is broadcast only after
/// the chain was reported to stand at least the cancel timelock above the
/// height at which the lock transaction was reported to be mined, whatever
/// is reported and in whatever order.
pub proof fn lemma_cancel_is_broadcast_after_expiry(
    lock: TxLockView,
    a: Seq<u8>,
    bob_key: Seq<u8>,
    timelock: CancelTimelock,
    bob_sig: Seq<u8>,
    states: Seq<CancelState>,
    events: Seq<CancelEvent>,
    actions: Seq<CancelAction>,
    i: int,
)
    requires
        cancel_run(lock, a, bob_key, timelock, bob_sig, states, events, actions),
        states[0] == CancelState::Started,
        0 <= i < actions.len(),
        actions[i] is Broadcast,
    ensures
        expiry_seen_before(events, i, timelock),
{
    lemma_cancel_invariant(lock, a, bob_key, timelock, bob_sig, states, events, actions, i);
    assert(cancel_transition(
        lock,
        a,
        bob_key,
        timelock,
        bob_sig,
        states[i],
        events[i],
        states[i + 1],
        actions[i],
    ));
}

/// Whatever a run broadcasts, from whichever state it starts, has the
/// identifier of the one cancel transaction that the swap's terms fix.
pub proof fn lemma_every_broadcast_is_the_cancel_transaction(
    lock: TxLockView,
    a: Seq<u8>,
    bob_key: Seq<u8>,
    timelock: CancelTimelock,
    bob_sig: Seq<u8>,
    states: Seq<CancelState>,
    events: Seq<CancelEvent>,
    actions: Seq<CancelAction>,
    i: int,
)
    requires
        cancel_run(lock, a, bob_key, timelock, bob_sig, states, events, actions),
        0 <= i < actions.len(),
        actions[i] is Broadcast,
    ensures
        txid_of(actions[i]->Broadcast_0@) == txid_of(
            tx_cancel_of(lock, timelock.0, secp256k1_public_key(a), bob_key).transaction,
        ),
{
    let cancel = tx_cancel_of(lock, timelock.0, secp256k1_public_key(a), bob_key);
    assert(cancel_transition(
        lock,
        a,
        bob_key,
        timelock,
        bob_sig,
        states[i],
        events[i],
        states[i + 1],
        actions[i],
    ));
    lemma_signing_keeps_txid(
        cancel.transaction,
        cancel.digest,
        cancel.spent_a,
        cancel.spent_b,
        secp256k1_public_key(a),
        ecdsa_signature(a, cancel.digest),
        bob_key,
        bob_sig,
    );
}

/// Playing the same reports again from the same state passes through the
/// same states and broadcasts at the same moments, and what is broadcast has
/// the same identifier.
pub proof fn lemma_replay_gives_the_same_run(
    lock: TxLockView,
    a: Seq<u8>,
    bob_key: Seq<u8>,
    timelock: CancelTimelock,
    bob_sig: Seq<u8>,
    events: Seq<CancelEvent>,
    states: Seq<CancelState>,
    actions: Seq<CancelAction>,
    states_again: Seq<CancelState>,
    actions_again: Seq<CancelAction>,
    n: int,
)
    requires
        cancel_run(lock, a, bob_key, timelock, bob_sig, states, events, actions),
        cancel_run(lock, a, bob_key, timelock, bob_sig, states_again, events, actions_again),
        states[0] == states_again[0],
        0 <= n <= events.len(),
    ensures
        states[n] == states_again[n],
        forall|i: int|
            0 <= i < n ==> (actions[i] is Broadcast <==> #[trigger] actions_again[i] is Broadcast),
        forall|i: int|
            0 <= i < n && actions[i] is Broadcast ==> txid_of(actions[i]->Broadcast_0@) == txid_of(
                #[trigger] actions_again[i]->Broadcast_0@,
            ),
    decreases n,
{
    if n > 0 {
        let m = n - 1;
        lemma_replay_gives_the_same_run(
            lock,
            a,
            bob_key,
            timelock,
            bob_sig,
            events,
            states,
            actions,
            states_again,
            actions_again,
            m,
        );
        assert(cancel_transition(
            lock,
            a,
            bob_key,
            timelock,
            bob_sig,
            states[m],
            events[m],
            states[m + 1],
            actions[m],
        ));
        assert(cancel_transition(
            lock,
            a,
            bob_key,
            timelock,
            bob_sig,
            states_again[m],
            events[m],
            states_again[m + 1],
            actions_again[m],
        ));
    }
}

/// The reports of an undisturbed publishing: the lock transaction was mined
/// at `locked`, the chain has reached `height`, the cancel transaction is
/// not known yet, and then it was broadcast.
pub open spec fn undisturbed_cancel(locked: BlockHeight, height: BlockHeight) -> Seq<CancelEvent> {
    seq![
        CancelEvent::Entered,
        CancelEvent::TxHeight(locked),
        CancelEvent::ChainHeight(height),
        CancelEvent::NotFound,
        CancelEvent::Broadcasted,
    ]
}

/// Where Bob's signature verifies and the chain has grown by the cancel
/// timelock, the undisturbed publishing broadcasts the cancel transaction
/// and ends with it.
pub proof fn lemma_undisturbed_cancel_finishes(
    lock: TxLockView,
    a: Seq<u8>,
    bob_key: Seq<u8>,
    timelock: CancelTimelock,
    bob_sig: Seq<u8>,
    locked: BlockHeight,
    height: BlockHeight,
    states: Seq<CancelState>,
    actions: Seq<CancelAction>,
)
    requires
        cancel_run(
            lock,
            a,
            bob_key,
            timelock,
            bob_sig,
            states,
            undisturbed_cancel(locked, height),
            actions,
        ),
        states[0] == CancelState::Started,
        locked.0 + timelock.0 <= height.0,
        signed_cancel(
            tx_cancel_of(lock, timelock.0, secp256k1_public_key(a), bob_key),
            a,
            bob_key,
            bob_sig,
        ) is Ok,
    ensures
        actions[3] is Broadcast,
        actions[4] is Return,
        states[5] == CancelState::Finished,
{
    let events = undisturbed_cancel(locked, height);
    let step = |i: int|
        cancel_transition(
            lock,
            a,
            bob_key,
            timelock,
            bob_sig,
            states[i],
            events[i],
            states[i + 1],
            actions[i],
        );
    assert(step(0));
    assert(step(1));
    assert(step(2));
    assert(step(3));
    assert(step(4));
}

} // verus!
