use swap::bitcoin::shared::build_shared_script_pubkey;
use swap::bitcoin::{
    Address, BlockHeight, CancelTimelock, EncryptedSignature, Error, OutPoint, PunishTimelock,
    SecretKey, Signature, Transaction, TxCancel, TxIn, TxLock, TxOut, TxRefund, Txid,
};
use swap::monero;
use swap::protocol::alice::steps::{
    extract_monero_private_key, joint_key_from_recovered, lock_xmr, publish_cancel_transaction,
    wait_for_bitcoin_encrypted_signature, wait_for_bitcoin_refund, CancelAction, CancelEvent,
    CancelState, EncryptedSignatureAction, EncryptedSignatureEvent, Failure, LockXmrAction,
    LockXmrEvent, LockXmrState, RefundAction, RefundEvent,
};
use swap::protocol::alice::State3;
use swap::protocol::bob;

const BTC: u64 = 1_000_000;
const XMR: u64 = 1_000_000_000_000;

fn secret(seed: u8) -> SecretKey {
    let mut bytes = [seed; 32];
    bytes[0] = 1;
    SecretKey::from_bytes(bytes).unwrap()
}

fn small_be(value: u8) -> [u8; 32] {
    let mut bytes = [0u8; 32];
    bytes[31] = value;
    bytes
}

fn small_le(value: u8) -> [u8; 32] {
    let mut bytes = [0u8; 32];
    bytes[0] = value;
    bytes
}

fn monero_scalar(value: u8) -> monero::Scalar {
    monero::Scalar::from_bytes_mod_order(small_le(value))
}

fn monero_key(value: u8) -> monero::PrivateKey {
    monero::PrivateKey::from_scalar(monero_scalar(value))
}

fn lock_for(a: &SecretKey, b: &SecretKey) -> TxLock {
    let funded = Transaction {
        version: 2,
        lock_time: 0,
        input: vec![TxIn {
            previous_output: OutPoint { txid: Txid { bytes: [0xcd; 32] }, vout: 0 },
            script_sig: vec![],
            sequence: 0xFFFF_FFFF,
            witness: vec![],
        }],
        output: vec![TxOut {
            value: BTC,
            script_pubkey: build_shared_script_pubkey(&a.public(), &b.public()),
        }],
    };
    TxLock::new(funded, a.public(), b.public()).unwrap()
}

fn decrypt(decryption_key: [u8; 32], encsig: &EncryptedSignature) -> Signature {
    SecretKey::from_bytes(decryption_key).unwrap().decsig(encsig).unwrap()
}

/// Alice's state with her keys `a` and `s_a = 5`, and Bob's keys `b` and
/// `s_b = 7`.
fn state3(a: &SecretKey, b: &SecretKey) -> State3 {
    let bob_share = SecretKey::from_bytes(small_be(7)).unwrap();
    State3 {
        a: *a,
        B: b.public(),
        s_a: monero_scalar(5),
        S_b_monero: monero::PublicKey::from_private_key(&monero_key(7)),
        S_b_bitcoin: bob_share.public(),
        v: monero::PrivateViewKey(monero_key(11)),
        xmr: monero::Amount(XMR),
        cancel_timelock: CancelTimelock(10),
        punish_timelock: PunishTimelock(10),
        refund_address: Address { script_pubkey: vec![0x00, 0x14, 0x42] },
        tx_lock: lock_for(a, b),
        tx_cancel_sig_bob: {
            let lock = lock_for(a, b);
            let cancel = TxCancel::new(&lock, CancelTimelock(10), a.public(), b.public());
            b.sign(cancel.digest())
        },
    }
}

fn transfer_proof(fill: u8) -> monero::TransferProof {
    monero::TransferProof { tx_hash: [fill; 32], tx_key: monero_key(fill) }
}

#[test]
fn lock_xmr_pays_to_the_joint_keys() {
    let state3 = state3(&secret(3), &secret(4));
    let (next, action) = lock_xmr(&state3, LockXmrState::NotLocked, LockXmrEvent::Entered);
    assert!(matches!(next, LockXmrState::NotLocked));
    match action {
        LockXmrAction::Transfer { public_spend_key, public_view_key, amount } => {
            // 5 * G + 7 * G
            assert_eq!(
                public_spend_key.to_bytes(),
                monero::PublicKey::from_private_key(&monero_key(12)).to_bytes()
            );
            assert_eq!(
                public_view_key.to_bytes(),
                monero::PublicKey::from_private_key(&monero_key(11)).to_bytes()
            );
            assert_eq!(amount, monero::Amount(XMR));
        }
        _ => panic!("no transfer"),
    }
}

#[test]
fn lock_xmr_sends_the_proof_of_the_transfer() {
    let state3 = state3(&secret(3), &secret(4));
    let (next, action) =
        lock_xmr(&state3, LockXmrState::NotLocked, LockXmrEvent::Transferred(transfer_proof(8)));
    assert!(matches!(next, LockXmrState::Locked(p) if p.tx_hash == [8; 32]));
    assert!(matches!(
        action,
        LockXmrAction::SendTransferProof(msg) if msg.tx_lock_proof.tx_hash == [8; 32]
    ));
    let (next, action) = lock_xmr(&state3, next, LockXmrEvent::ProofDelivered);
    assert!(matches!(next, LockXmrState::ProofSent));
    assert!(matches!(action, LockXmrAction::Finish));
    let (next, action) = lock_xmr(&state3, next, LockXmrEvent::Entered);
    assert!(matches!(next, LockXmrState::ProofSent));
    assert!(matches!(action, LockXmrAction::Finish));
}

#[test]
fn lock_xmr_does_not_transfer_again_after_a_restart() {
    let state3 = state3(&secret(3), &secret(4));
    let (next, action) =
        lock_xmr(&state3, LockXmrState::Locked(transfer_proof(8)), LockXmrEvent::Entered);
    assert!(matches!(next, LockXmrState::Locked(p) if p.tx_hash == [8; 32]));
    assert!(matches!(
        action,
        LockXmrAction::SendTransferProof(msg) if msg.tx_lock_proof.tx_hash == [8; 32]
    ));
    // a second report of a transfer is not taken up
    let (next, action) = lock_xmr(&state3, next, LockXmrEvent::Transferred(transfer_proof(9)));
    assert!(matches!(next, LockXmrState::Locked(p) if p.tx_hash == [8; 32]));
    assert!(matches!(action, LockXmrAction::Abort(Failure::UnexpectedEvent)));
}

#[test]
fn lock_xmr_gives_up_on_a_failure() {
    let state3 = state3(&secret(3), &secret(4));
    let (next, action) = lock_xmr(&state3, LockXmrState::NotLocked, LockXmrEvent::Failed);
    assert!(matches!(next, LockXmrState::NotLocked));
    assert!(matches!(action, LockXmrAction::Abort(Failure::Reported)));
    let (next, action) =
        lock_xmr(&state3, LockXmrState::Locked(transfer_proof(1)), LockXmrEvent::Failed);
    assert!(matches!(next, LockXmrState::Locked(_)));
    assert!(matches!(action, LockXmrAction::Abort(Failure::Reported)));
    let (_, action) = lock_xmr(&state3, LockXmrState::NotLocked, LockXmrEvent::ProofDelivered);
    assert!(matches!(action, LockXmrAction::Abort(Failure::UnexpectedEvent)));
}

#[test]
fn encrypted_signature_is_taken_out_of_the_message() {
    assert!(matches!(
        wait_for_bitcoin_encrypted_signature(EncryptedSignatureEvent::Entered),
        EncryptedSignatureAction::Receive
    ));
    let msg = bob::EncryptedSignature { tx_redeem_encsig: EncryptedSignature { bytes: [7; 162] } };
    assert!(matches!(
        wait_for_bitcoin_encrypted_signature(EncryptedSignatureEvent::Received(msg)),
        EncryptedSignatureAction::Return(encsig) if encsig.bytes == [7; 162]
    ));
    assert!(matches!(
        wait_for_bitcoin_encrypted_signature(EncryptedSignatureEvent::Failed),
        EncryptedSignatureAction::Abort(Failure::Reported)
    ));
}

fn cancel_step(s: &State3, state: CancelState, event: CancelEvent) -> (CancelState, CancelAction) {
    publish_cancel_transaction(
        &s.tx_lock,
        &s.a,
        s.B,
        s.cancel_timelock,
        s.tx_cancel_sig_bob,
        state,
        event,
    )
}

#[test]
fn cancel_is_published_once_the_timelock_has_run_out() {
    let a = secret(3);
    let b = secret(4);
    let s = state3(&a, &b);
    let cancel = TxCancel::new(&s.tx_lock, s.cancel_timelock, a.public(), b.public());

    let (state, action) = cancel_step(&s, CancelState::Started, CancelEvent::Entered);
    assert_eq!(state, CancelState::Started);
    assert!(matches!(action, CancelAction::GetTxHeight(id) if id.bytes == s.tx_lock.txid().bytes));

    let (state, action) = cancel_step(&s, state, CancelEvent::TxHeight(BlockHeight(100)));
    assert_eq!(state, CancelState::WaitingForExpiry { expiry: BlockHeight(110) });
    assert!(matches!(action, CancelAction::AwaitHeight(BlockHeight(110))));

    let (state, action) = cancel_step(&s, state, CancelEvent::ChainHeight(BlockHeight(109)));
    assert_eq!(state, CancelState::WaitingForExpiry { expiry: BlockHeight(110) });
    assert!(matches!(action, CancelAction::AwaitHeight(BlockHeight(110))));

    let (state, action) = cancel_step(&s, state, CancelEvent::ChainHeight(BlockHeight(110)));
    assert_eq!(state, CancelState::Expired);
    assert!(matches!(action, CancelAction::LookUp(id) if id.bytes == cancel.txid().bytes));

    let (state, action) = cancel_step(&s, state, CancelEvent::NotFound);
    assert_eq!(state, CancelState::Expired);
    match action {
        CancelAction::Broadcast(tx) => {
            assert_eq!(tx.txid().bytes, cancel.txid().bytes);
            assert_eq!(tx.input[0].witness.len(), 3);
            assert_eq!(tx.input[0].sequence, 10);
            assert_eq!(tx.output[0].value, BTC - 1000);
        }
        _ => panic!("no broadcast"),
    }

    let (state, action) = cancel_step(&s, state, CancelEvent::Broadcasted);
    assert_eq!(state, CancelState::Finished);
    assert!(matches!(action, CancelAction::Return(tx) if tx.txid().bytes == cancel.txid().bytes));

    let (state, action) = cancel_step(&s, state, CancelEvent::Entered);
    assert_eq!(state, CancelState::Finished);
    assert!(matches!(action, CancelAction::Return(tx) if tx.txid().bytes == cancel.txid().bytes));
}

#[test]
fn cancel_is_not_published_twice() {
    let a = secret(3);
    let b = secret(4);
    let s = state3(&a, &b);
    let cancel = TxCancel::new(&s.tx_lock, s.cancel_timelock, a.public(), b.public());
    let (state, action) = cancel_step(&s, CancelState::Expired, CancelEvent::Entered);
    assert_eq!(state, CancelState::Expired);
    assert!(matches!(action, CancelAction::LookUp(id) if id.bytes == cancel.txid().bytes));
    let (state, action) = cancel_step(&s, state, CancelEvent::Found);
    assert_eq!(state, CancelState::Finished);
    assert!(matches!(action, CancelAction::Return(_)));
}

#[test]
fn cancel_waits_again_after_a_restart() {
    let s = state3(&secret(3), &secret(4));
    let waiting = CancelState::WaitingForExpiry { expiry: BlockHeight(110) };
    let (state, action) = cancel_step(&s, waiting, CancelEvent::Entered);
    assert_eq!(state, waiting);
    assert!(matches!(action, CancelAction::AwaitHeight(BlockHeight(110))));
}

#[test]
fn cancel_is_not_published_before_the_timelock_is_known_to_have_run_out() {
    let s = state3(&secret(3), &secret(4));
    for state in [CancelState::Started, CancelState::WaitingForExpiry { expiry: BlockHeight(5) }] {
        for event in [CancelEvent::NotFound, CancelEvent::Found, CancelEvent::Broadcasted] {
            let (next, action) = cancel_step(&s, state, event);
            assert_eq!(next, state);
            assert!(matches!(action, CancelAction::Abort(Failure::UnexpectedEvent)));
        }
    }
    let (next, action) =
        cancel_step(&s, CancelState::Started, CancelEvent::ChainHeight(BlockHeight(1_000_000)));
    assert_eq!(next, CancelState::Started);
    assert!(matches!(action, CancelAction::Abort(Failure::UnexpectedEvent)));
}

#[test]
fn cancel_gives_up_on_a_failure_and_on_a_height_that_cannot_be() {
    let s = state3(&secret(3), &secret(4));
    let (next, action) = cancel_step(&s, CancelState::Expired, CancelEvent::Failed);
    assert_eq!(next, CancelState::Expired);
    assert!(matches!(action, CancelAction::Abort(Failure::Reported)));
    let (next, action) =
        cancel_step(&s, CancelState::Started, CancelEvent::TxHeight(BlockHeight(u32::MAX - 9)));
    assert_eq!(next, CancelState::Started);
    assert!(matches!(action, CancelAction::Abort(Failure::HeightOverflow)));
    let (next, _) =
        cancel_step(&s, CancelState::Started, CancelEvent::TxHeight(BlockHeight(u32::MAX - 10)));
    assert_eq!(next, CancelState::WaitingForExpiry { expiry: BlockHeight(u32::MAX) });
}

#[test]
fn cancel_is_not_signed_with_a_wrong_signature_of_bob() {
    let a = secret(3);
    let b = secret(4);
    let mut s = state3(&a, &b);
    s.tx_cancel_sig_bob = b.sign(swap::bitcoin::SigHash { bytes: [1; 32] });
    let (next, action) = cancel_step(&s, CancelState::Expired, CancelEvent::NotFound);
    assert_eq!(next, CancelState::Expired);
    assert!(matches!(action, CancelAction::Abort(Failure::Signing(Error::InvalidSignature))));

    let mut s = state3(&a, &b);
    s.B = secret(5).public();
    let (_, action) = cancel_step(&s, CancelState::Expired, CancelEvent::NotFound);
    assert!(matches!(action, CancelAction::Abort(Failure::Signing(Error::KeyNotInScript))));
}

#[test]
fn block_heights_and_timelocks() {
    assert_eq!(BlockHeight(5).after_cancel_timelock(CancelTimelock(10)), Some(BlockHeight(15)));
    assert_eq!(BlockHeight(5).after_punish_timelock(PunishTimelock(7)), Some(BlockHeight(12)));
    assert_eq!(BlockHeight(u32::MAX).after_cancel_timelock(CancelTimelock(1)), None);
    assert_eq!(BlockHeight(u32::MAX).after_punish_timelock(PunishTimelock(0)), Some(BlockHeight(u32::MAX)));
    assert!(BlockHeight(10).has_reached(BlockHeight(10)));
    assert!(BlockHeight(11).has_reached(BlockHeight(10)));
    assert!(!BlockHeight(9).has_reached(BlockHeight(10)));
}

fn refund_setup(a: &SecretKey, b: &SecretKey) -> (State3, TxCancel, TxRefund) {
    let s = state3(a, b);
    let cancel = TxCancel::new(&s.tx_lock, s.cancel_timelock, a.public(), b.public());
    let refund = TxRefund::new(&cancel, &s.refund_address);
    (s, cancel, refund)
}

#[test]
fn refund_is_watched_for_until_the_punish_timelock_has_run_out() {
    let a = secret(3);
    let b = secret(4);
    let (s, cancel, refund) = refund_setup(&a, &b);
    let step = |event| {
        wait_for_bitcoin_refund(
            &cancel,
            BlockHeight(120),
            s.punish_timelock,
            &s.refund_address,
            event,
        )
    };
    assert!(matches!(
        step(RefundEvent::Entered),
        RefundAction::Watch { punish_height: BlockHeight(130), refund_txid }
            if refund_txid.bytes == refund.txid().bytes
    ));
    assert!(matches!(
        step(RefundEvent::ChainHeight(BlockHeight(129))),
        RefundAction::Watch { punish_height: BlockHeight(130), .. }
    ));
    // Bob stays away: Alice may punish
    assert!(matches!(
        step(RefundEvent::ChainHeight(BlockHeight(130))),
        RefundAction::Return(tx, None) if tx.txid().bytes == refund.txid().bytes
    ));
    assert!(matches!(step(RefundEvent::Failed), RefundAction::Abort(Failure::Reported)));
}

#[test]
fn refund_that_is_seen_ends_the_watch() {
    let a = secret(3);
    let b = secret(4);
    let (s, cancel, refund) = refund_setup(&a, &b);
    let published = refund
        .add_signatures((a.public(), a.sign(refund.digest())), (b.public(), b.sign(refund.digest())))
        .unwrap();
    let action = wait_for_bitcoin_refund(
        &cancel,
        BlockHeight(120),
        s.punish_timelock,
        &s.refund_address,
        RefundEvent::RefundSeen(published.clone()),
    );
    match action {
        RefundAction::Return(tx_refund, Some(seen)) => {
            assert_eq!(tx_refund.txid().bytes, refund.txid().bytes);
            assert_eq!(seen.txid().bytes, refund.txid().bytes);
            assert_eq!(seen.input[0].witness, published.input[0].witness);
        }
        _ => panic!("the refund was not returned"),
    }
}

#[test]
fn refund_watch_gives_up_on_a_height_that_cannot_be() {
    let a = secret(3);
    let b = secret(4);
    let (s, cancel, _) = refund_setup(&a, &b);
    for event in [RefundEvent::Entered, RefundEvent::ChainHeight(BlockHeight(5))] {
        assert!(matches!(
            wait_for_bitcoin_refund(
                &cancel,
                BlockHeight(u32::MAX - 5),
                s.punish_timelock,
                &s.refund_address,
                event,
            ),
            RefundAction::Abort(Failure::HeightOverflow)
        ));
    }
}

#[test]
fn joint_key_is_the_sum_of_the_shares() {
    let s_b = SecretKey::from_bytes(small_be(7)).unwrap();
    let key = joint_key_from_recovered(monero_scalar(5), s_b);
    assert_eq!(key.scalar.to_bytes(), small_le(12));
}

/// Both parties refund: Bob decrypts Alice's encrypted signature on the
/// refund transaction with his scalar and publishes the transaction; Alice
/// reads her signature off it, recovers his scalar and has the key to the
/// monero.
#[test]
fn both_refund_gives_alice_the_key_to_the_monero() {
    let a = secret(3);
    let b = secret(4);
    let (s, _, refund) = refund_setup(&a, &b);

    // Bob's side
    let encsig = a.encsign(s.S_b_bitcoin, refund.digest());
    let sig_a = decrypt(small_be(7), &encsig);
    let sig_b = b.sign(refund.digest());
    let published = refund.add_signatures((a.public(), sig_a), (b.public(), sig_b)).unwrap();
    assert_eq!(published.txid().bytes, refund.txid().bytes);

    // Alice's side
    let key =
        extract_monero_private_key(published, &refund, s.s_a, a, s.S_b_bitcoin).unwrap();
    assert_eq!(key.scalar.to_bytes(), small_le(12));
    assert_eq!(
        monero::PublicKey::from_private_key(&key).to_bytes(),
        monero::PublicKey::from_private_key(&monero_key(5)).add(&s.S_b_monero).to_bytes()
    );
}

#[test]
fn extract_monero_private_key_needs_the_decrypted_signature() {
    let a = secret(3);
    let b = secret(4);
    let (s, _, refund) = refund_setup(&a, &b);
    // Alice's plain signature gives nothing away
    let published = refund
        .add_signatures((a.public(), a.sign(refund.digest())), (b.public(), b.sign(refund.digest())))
        .unwrap();
    assert!(matches!(
        extract_monero_private_key(published.clone(), &refund, s.s_a, a, s.S_b_bitcoin),
        Err(Error::RecoveryFailed)
    ));
    // a transaction without Alice's signature
    let mut stripped = published.clone();
    stripped.input[0].witness[1] = stripped.input[0].witness[0].clone();
    assert!(matches!(
        extract_monero_private_key(stripped, &refund, s.s_a, a, s.S_b_bitcoin),
        Err(Error::NoMatchingSignature)
    ));
    let mut bare = published;
    bare.input.clear();
    assert!(matches!(
        extract_monero_private_key(bare, &refund, s.s_a, a, s.S_b_bitcoin),
        Err(Error::NoInputs)
    ));
}
