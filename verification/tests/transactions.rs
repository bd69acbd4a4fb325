use swap::bitcoin::hashes::{hash, hash_twice};
use swap::bitcoin::shared::{
    build_shared_script, build_shared_script_pubkey, bytes_equal, extract_signature_by_key,
};
use swap::bitcoin::transaction::{push_bytes, push_compact_size, push_u32, push_u64};
use swap::bitcoin::{
    recover, Address, CancelTimelock, Error, OutPoint, PublicKey, PunishTimelock, SecretKey,
    SigHash, Signature, Transaction, TxCancel, TxIn, TxLock, TxOut, TxPunish, TxRedeem, TxRefund,
    Txid, TX_FEE,
};

fn secret(seed: u8) -> SecretKey {
    let mut bytes = [seed; 32];
    bytes[0] = 1;
    SecretKey::from_bytes(bytes).unwrap()
}

fn funding_input() -> TxIn {
    TxIn {
        previous_output: OutPoint { txid: Txid { bytes: [0xab; 32] }, vout: 3 },
        script_sig: vec![],
        sequence: 0xFFFF_FFFF,
        witness: vec![vec![1, 2, 3]],
    }
}

fn funded(outputs: Vec<TxOut>) -> Transaction {
    Transaction { version: 2, lock_time: 0, input: vec![funding_input()], output: outputs }
}

fn lock_for(a: &SecretKey, b: &SecretKey, amount: u64) -> TxLock {
    let script_pubkey = build_shared_script_pubkey(&a.public(), &b.public());
    let change = TxOut { value: 5_000, script_pubkey: vec![0x51] };
    let shared = TxOut { value: amount, script_pubkey };
    TxLock::new(funded(vec![change, shared]), a.public(), b.public()).unwrap()
}

fn compact(n: usize) -> Vec<u8> {
    let mut out = vec![];
    push_compact_size(&mut out, n);
    out
}

#[test]
fn integers_are_written_least_significant_byte_first() {
    let mut out = vec![0xaa];
    push_u32(&mut out, 0x0102_0304);
    assert_eq!(out, vec![0xaa, 4, 3, 2, 1]);
    let mut out = vec![];
    push_u64(&mut out, 0x0102_0304_0506_0708);
    assert_eq!(out, vec![8, 7, 6, 5, 4, 3, 2, 1]);
    let mut out = vec![9];
    push_bytes(&mut out, &[7, 8]);
    assert_eq!(out, vec![9, 7, 8]);
}

#[test]
fn compact_size_at_its_boundaries() {
    assert_eq!(compact(0), vec![0]);
    assert_eq!(compact(0xfc), vec![0xfc]);
    assert_eq!(compact(0xfd), vec![0xfd, 0xfd, 0x00]);
    assert_eq!(compact(0xffff), vec![0xfd, 0xff, 0xff]);
    assert_eq!(compact(0x1_0000), vec![0xfe, 0x00, 0x00, 0x01, 0x00]);
    assert_eq!(compact(0xffff_ffff), vec![0xfe, 0xff, 0xff, 0xff, 0xff]);
    assert_eq!(compact(0x1_0000_0000), vec![0xff, 0, 0, 0, 0, 1, 0, 0, 0]);
}

#[test]
fn bytes_equal_compares_length_and_content() {
    assert!(bytes_equal(&[], &[]));
    assert!(bytes_equal(&[1, 2], &[1, 2]));
    assert!(!bytes_equal(&[1, 2], &[1, 3]));
    assert!(!bytes_equal(&[1, 2], &[1, 2, 3]));
}

#[test]
fn transaction_is_serialized_without_its_witness() {
    let tx = Transaction {
        version: 2,
        lock_time: 0x0000_0102,
        input: vec![TxIn {
            previous_output: OutPoint { txid: Txid { bytes: [0x11; 32] }, vout: 1 },
            script_sig: vec![0xaa, 0xbb],
            sequence: 10,
            witness: vec![vec![9, 9, 9]],
        }],
        output: vec![TxOut { value: 1_000_000, script_pubkey: vec![0x00, 0x14, 0x77] }],
    };
    let mut expected = vec![2, 0, 0, 0, 1];
    expected.extend_from_slice(&[0x11; 32]);
    expected.extend_from_slice(&[1, 0, 0, 0, 2, 0xaa, 0xbb, 10, 0, 0, 0]);
    expected.extend_from_slice(&[1, 0x40, 0x42, 0x0f, 0, 0, 0, 0, 0, 3, 0x00, 0x14, 0x77]);
    expected.extend_from_slice(&[2, 1, 0, 0]);
    assert_eq!(tx.serialize(), expected);
    assert_eq!(tx.txid().bytes, hash_twice(&expected));
}

#[test]
fn witness_does_not_alter_the_txid() {
    let mut tx = funded(vec![TxOut { value: 7, script_pubkey: vec![1] }]);
    let before = tx.txid().bytes;
    tx.input[0].witness = vec![vec![0xde, 0xad], vec![]];
    assert_eq!(tx.txid().bytes, before);
    tx.input[0].sequence = 5;
    assert_ne!(tx.txid().bytes, before);
}

#[test]
fn signature_hash_commits_to_inputs_outputs_script_and_amount() {
    let tx = Transaction {
        version: 2,
        lock_time: 0,
        input: vec![TxIn {
            previous_output: OutPoint { txid: Txid { bytes: [0x22; 32] }, vout: 0 },
            script_sig: vec![],
            sequence: 10,
            witness: vec![],
        }],
        output: vec![TxOut { value: 999_000, script_pubkey: vec![0x51, 0x52] }],
    };
    let script_code = [0x21u8, 0x02, 0xac];
    let mut outpoint = vec![0x22; 32];
    outpoint.extend_from_slice(&[0, 0, 0, 0]);
    let mut preimage = vec![2, 0, 0, 0];
    preimage.extend_from_slice(&hash_twice(&outpoint));
    preimage.extend_from_slice(&hash_twice(&[10, 0, 0, 0]));
    preimage.extend_from_slice(&outpoint);
    preimage.extend_from_slice(&[3, 0x21, 0x02, 0xac]);
    preimage.extend_from_slice(&[0x40, 0x42, 0x0f, 0, 0, 0, 0, 0]);
    preimage.extend_from_slice(&[10, 0, 0, 0]);
    preimage.extend_from_slice(&hash_twice(&[0x58, 0x3e, 0x0f, 0, 0, 0, 0, 0, 2, 0x51, 0x52]));
    preimage.extend_from_slice(&[0, 0, 0, 0]);
    preimage.extend_from_slice(&[1, 0, 0, 0]);
    assert_eq!(tx.signature_hash(0, &script_code, 1_000_000).bytes, hash_twice(&preimage));
    assert_ne!(
        tx.signature_hash(0, &script_code, 1_000_001).bytes,
        tx.signature_hash(0, &script_code, 1_000_000).bytes
    );
}

#[test]
fn shared_script_checks_both_keys() {
    let a = secret(3).public();
    let b = secret(4).public();
    let script = build_shared_script(&a, &b);
    let mut expected = vec![0x21];
    expected.extend_from_slice(&a.to_bytes());
    expected.extend_from_slice(&[0xad, 0x21]);
    expected.extend_from_slice(&b.to_bytes());
    expected.push(0xac);
    assert_eq!(script, expected);
    let mut pays = vec![0x00, 0x20];
    pays.extend_from_slice(&hash(&expected));
    assert_eq!(build_shared_script_pubkey(&a, &b), pays);
}

#[test]
fn lock_takes_the_first_output_that_pays_the_shared_script() {
    let a = secret(3);
    let b = secret(4);
    let script_pubkey = build_shared_script_pubkey(&a.public(), &b.public());
    let outputs = vec![
        TxOut { value: 5_000, script_pubkey: vec![0x51] },
        TxOut { value: 1_000_000, script_pubkey: script_pubkey.clone() },
        TxOut { value: 2_000_000, script_pubkey },
    ];
    let tx = funded(outputs);
    let txid = tx.txid().bytes;
    let lock = TxLock::new(tx, a.public(), b.public()).unwrap();
    assert_eq!(lock.lock_amount(), 1_000_000);
    assert_eq!(lock.as_outpoint().vout, 1);
    assert_eq!(lock.as_outpoint().txid.bytes, txid);
    assert_eq!(lock.txid().bytes, txid);
    assert_eq!(lock.transaction().output.len(), 3);
    assert_eq!(lock.keys().0.to_bytes(), a.public().to_bytes());
    assert_eq!(lock.keys().1.to_bytes(), b.public().to_bytes());
}

#[test]
fn lock_needs_an_output_that_pays_the_shared_script() {
    let a = secret(3);
    let b = secret(4);
    let other = build_shared_script_pubkey(&b.public(), &a.public());
    let tx = funded(vec![TxOut { value: 1_000_000, script_pubkey: other }]);
    assert!(matches!(TxLock::new(tx, a.public(), b.public()), Err(Error::NoLockOutput)));
    assert!(matches!(
        TxLock::new(funded(vec![]), a.public(), b.public()),
        Err(Error::NoLockOutput)
    ));
}

#[test]
fn lock_needs_an_amount_above_the_fees() {
    let a = secret(3);
    let b = secret(4);
    let script_pubkey = build_shared_script_pubkey(&a.public(), &b.public());
    assert_eq!(TX_FEE, 1000);
    let short = funded(vec![TxOut { value: 1_999, script_pubkey: script_pubkey.clone() }]);
    assert!(matches!(TxLock::new(short, a.public(), b.public()), Err(Error::AmountBelowFees)));
    let enough = funded(vec![TxOut { value: 2_000, script_pubkey }]);
    assert!(TxLock::new(enough, a.public(), b.public()).is_ok());
}

#[test]
fn cancel_spends_the_lock_after_the_timelock() {
    let a = secret(3);
    let b = secret(4);
    let lock = lock_for(&a, &b, 1_000_000);
    let cancel = TxCancel::new(&lock, CancelTimelock(10), a.public(), b.public());
    let tx = cancel.transaction();
    assert_eq!(tx.version, 2);
    assert_eq!(tx.lock_time, 0);
    assert_eq!(tx.input.len(), 1);
    assert_eq!(tx.input[0].previous_output.txid.bytes, lock.txid().bytes);
    assert_eq!(tx.input[0].previous_output.vout, 1);
    assert_eq!(tx.input[0].sequence, 10);
    assert!(tx.input[0].script_sig.is_empty());
    assert!(tx.input[0].witness.is_empty());
    assert_eq!(tx.output.len(), 1);
    assert_eq!(tx.output[0].value, 1_000_000 - 1_000);
    assert_eq!(
        tx.output[0].script_pubkey,
        build_shared_script_pubkey(&a.public(), &b.public())
    );
    assert_eq!(cancel.amount(), 999_000);
    assert_eq!(cancel.txid().bytes, tx.txid().bytes);
    assert_eq!(cancel.as_outpoint().txid.bytes, tx.txid().bytes);
    assert_eq!(cancel.as_outpoint().vout, 0);
    let script = build_shared_script(&a.public(), &b.public());
    assert_eq!(cancel.digest().bytes, tx.signature_hash(0, &script, 1_000_000).bytes);
}

#[test]
fn refund_spends_the_cancel_to_the_refund_address() {
    let a = secret(3);
    let b = secret(4);
    let lock = lock_for(&a, &b, 1_000_000);
    let cancel = TxCancel::new(&lock, CancelTimelock(10), a.public(), b.public());
    let address = Address { script_pubkey: vec![0x00, 0x14, 0x01, 0x02] };
    let refund = TxRefund::new(&cancel, &address);
    let tx = refund.transaction();
    assert_eq!(tx.version, 2);
    assert_eq!(tx.lock_time, 0);
    assert_eq!(tx.input.len(), 1);
    assert_eq!(tx.input[0].previous_output.txid.bytes, cancel.txid().bytes);
    assert_eq!(tx.input[0].previous_output.vout, 0);
    assert_eq!(tx.input[0].sequence, 0xFFFF_FFFF);
    assert_eq!(tx.output.len(), 1);
    assert_eq!(tx.output[0].value, 1_000_000 - 2 * TX_FEE);
    assert_eq!(tx.output[0].script_pubkey, address.script_pubkey);
    let script = build_shared_script(&a.public(), &b.public());
    assert_eq!(refund.digest().bytes, tx.signature_hash(0, &script, 999_000).bytes);
    assert_eq!(refund.txid().bytes, tx.txid().bytes);
}

#[test]
fn signatures_do_not_alter_the_txid() {
    let a = secret(3);
    let b = secret(4);
    let lock = lock_for(&a, &b, 1_000_000);
    let cancel = TxCancel::new(&lock, CancelTimelock(10), a.public(), b.public());
    let refund = TxRefund::new(&cancel, &Address { script_pubkey: vec![0x51] });
    let sig_a = a.sign(refund.digest());
    let sig_b = b.sign(refund.digest());
    let signed = refund.add_signatures((a.public(), sig_a), (b.public(), sig_b)).unwrap();
    assert_eq!(signed.txid().bytes, refund.txid().bytes);

    let sig_a = a.sign(cancel.digest());
    let sig_b = b.sign(cancel.digest());
    let signed = cancel.add_signatures((a.public(), sig_a), (b.public(), sig_b)).unwrap();
    assert_eq!(signed.txid().bytes, cancel.txid().bytes);
}

#[test]
fn signed_transaction_carries_both_signatures_and_the_script() {
    let a = secret(3);
    let b = secret(4);
    let lock = lock_for(&a, &b, 1_000_000);
    let cancel = TxCancel::new(&lock, CancelTimelock(10), a.public(), b.public());
    let sig_a = a.sign(cancel.digest());
    let sig_b = b.sign(cancel.digest());
    let signed = cancel.add_signatures((a.public(), sig_a), (b.public(), sig_b)).unwrap();
    let mut first = sig_b.to_der();
    first.push(1);
    let mut second = sig_a.to_der();
    second.push(1);
    let script = build_shared_script(&a.public(), &b.public());
    assert_eq!(signed.input[0].witness, vec![first, second, script]);
    assert_eq!(signed.input[0].sequence, 10);
    assert_eq!(signed.output[0].value, 999_000);
    assert_eq!(signed.version, 2);
}

#[test]
fn add_signatures_refuses_signatures_that_do_not_verify() {
    let a = secret(3);
    let b = secret(4);
    let lock = lock_for(&a, &b, 1_000_000);
    let cancel = TxCancel::new(&lock, CancelTimelock(10), a.public(), b.public());
    let refund = TxRefund::new(&cancel, &Address { script_pubkey: vec![0x51] });
    let sig_a = a.sign(refund.digest());
    let sig_b = b.sign(refund.digest());
    // Bob's signature on another transaction
    let stale = b.sign(cancel.digest());
    assert!(matches!(
        refund.add_signatures((a.public(), sig_a), (b.public(), stale)),
        Err(Error::InvalidSignature)
    ));
    // signatures swapped
    assert!(matches!(
        refund.add_signatures((a.public(), sig_b), (b.public(), sig_a)),
        Err(Error::InvalidSignature)
    ));
    assert!(matches!(
        cancel.add_signatures((a.public(), sig_a), (b.public(), sig_b)),
        Err(Error::InvalidSignature)
    ));
}

#[test]
fn add_signatures_refuses_keys_that_the_output_does_not_name() {
    let a = secret(3);
    let b = secret(4);
    let c = secret(5);
    let lock = lock_for(&a, &b, 1_000_000);
    let cancel = TxCancel::new(&lock, CancelTimelock(10), a.public(), b.public());
    let sig_a = a.sign(cancel.digest());
    let sig_b = b.sign(cancel.digest());
    let sig_c = c.sign(cancel.digest());
    assert!(matches!(
        cancel.add_signatures((a.public(), sig_a), (c.public(), sig_c)),
        Err(Error::KeyNotInScript)
    ));
    assert!(matches!(
        cancel.add_signatures((b.public(), sig_b), (a.public(), sig_a)),
        Err(Error::KeyNotInScript)
    ));
}

fn signed_refund(a: &SecretKey, b: &SecretKey) -> (TxRefund, Transaction, Signature, Signature) {
    let lock = lock_for(a, b, 1_000_000);
    let cancel = TxCancel::new(&lock, CancelTimelock(10), a.public(), b.public());
    let refund = TxRefund::new(&cancel, &Address { script_pubkey: vec![0x51] });
    let sig_a = a.sign(refund.digest());
    let sig_b = b.sign(refund.digest());
    let signed = refund.add_signatures((a.public(), sig_a), (b.public(), sig_b)).unwrap();
    (refund, signed, sig_a, sig_b)
}

#[test]
fn extract_signature_by_key_finds_each_signature() {
    let a = secret(3);
    let b = secret(4);
    let (refund, signed, sig_a, sig_b) = signed_refund(&a, &b);
    let found = refund.extract_signature_by_key(signed.clone(), b.public()).unwrap();
    assert_eq!(found.bytes, sig_b.bytes);
    let found = refund.extract_signature_by_key(signed.clone(), a.public()).unwrap();
    assert_eq!(found.bytes, sig_a.bytes);
    let digest: SigHash = refund.digest();
    let found = extract_signature_by_key(&signed, &digest, &a.public()).unwrap();
    assert_eq!(found.bytes, sig_a.bytes);
}

#[test]
fn extract_signature_by_key_reports_what_is_wrong() {
    let a = secret(3);
    let b = secret(4);
    let c: PublicKey = secret(5).public();
    let (refund, signed, _, _) = signed_refund(&a, &b);

    assert!(matches!(
        refund.extract_signature_by_key(signed.clone(), c),
        Err(Error::NoMatchingSignature)
    ));

    let mut none = signed.clone();
    none.input.clear();
    assert!(matches!(refund.extract_signature_by_key(none, a.public()), Err(Error::NoInputs)));

    let mut two = signed.clone();
    two.input.push(funding_input());
    assert!(matches!(
        refund.extract_signature_by_key(two, a.public()),
        Err(Error::TooManyInputs(2))
    ));

    let mut bare = signed.clone();
    bare.input[0].witness.clear();
    assert!(matches!(
        refund.extract_signature_by_key(bare, a.public()),
        Err(Error::EmptyWitnessStack)
    ));

    let mut short = signed.clone();
    short.input[0].witness.pop();
    assert!(matches!(
        refund.extract_signature_by_key(short, a.public()),
        Err(Error::NotThreeWitnesses(2))
    ));

    let mut long = signed.clone();
    long.input[0].witness.push(vec![]);
    assert!(matches!(
        refund.extract_signature_by_key(long, a.public()),
        Err(Error::NotThreeWitnesses(4))
    ));

    let mut empty_item = signed.clone();
    empty_item.input[0].witness[1] = vec![];
    assert!(matches!(
        refund.extract_signature_by_key(empty_item, b.public()),
        Err(Error::MalformedSignature)
    ));

    let mut garbled = signed.clone();
    garbled.input[0].witness[0][0] = 0x31;
    assert!(matches!(
        refund.extract_signature_by_key(garbled, a.public()),
        Err(Error::MalformedSignature)
    ));
}

#[test]
fn extract_signature_by_key_ignores_the_last_byte_of_an_item() {
    let a = secret(3);
    let b = secret(4);
    let (refund, mut signed, sig_a, _) = signed_refund(&a, &b);
    let last = signed.input[0].witness[1].len() - 1;
    signed.input[0].witness[1][last] = 0x83;
    let found = refund.extract_signature_by_key(signed, a.public()).unwrap();
    assert_eq!(found.bytes, sig_a.bytes);
}

#[test]
fn redeem_spends_the_lock_to_the_redeem_address() {
    let a = secret(3);
    let b = secret(4);
    let lock = lock_for(&a, &b, 1_000_000);
    let address = Address { script_pubkey: vec![0x00, 0x14, 0x09] };
    let redeem = TxRedeem::new(&lock, &address);
    let tx = redeem.transaction();
    assert_eq!(tx.version, 2);
    assert_eq!(tx.lock_time, 0);
    assert_eq!(tx.input.len(), 1);
    assert_eq!(tx.input[0].previous_output.txid.bytes, lock.txid().bytes);
    assert_eq!(tx.input[0].previous_output.vout, 1);
    assert_eq!(tx.input[0].sequence, 0xFFFF_FFFF);
    assert_eq!(tx.output.len(), 1);
    assert_eq!(tx.output[0].value, 1_000_000 - TX_FEE);
    assert_eq!(tx.output[0].script_pubkey, address.script_pubkey);
    let script = build_shared_script(&a.public(), &b.public());
    assert_eq!(redeem.digest().bytes, tx.signature_hash(0, &script, 1_000_000).bytes);
    assert_eq!(redeem.txid().bytes, tx.txid().bytes);
    let signed = redeem
        .add_signatures((a.public(), a.sign(redeem.digest())), (b.public(), b.sign(redeem.digest())))
        .unwrap();
    assert_eq!(signed.txid().bytes, redeem.txid().bytes);
    assert!(matches!(
        redeem.add_signatures(
            (a.public(), a.sign(redeem.digest())),
            (b.public(), a.sign(redeem.digest()))
        ),
        Err(Error::InvalidSignature)
    ));
}

#[test]
fn punish_spends_the_cancel_after_the_punish_timelock() {
    let a = secret(3);
    let b = secret(4);
    let lock = lock_for(&a, &b, 1_000_000);
    let cancel = TxCancel::new(&lock, CancelTimelock(10), a.public(), b.public());
    let address = Address { script_pubkey: vec![0x00, 0x14, 0x0a] };
    let punish = TxPunish::new(&cancel, &address, PunishTimelock(7));
    let tx = punish.transaction();
    assert_eq!(tx.version, 2);
    assert_eq!(tx.lock_time, 0);
    assert_eq!(tx.input.len(), 1);
    assert_eq!(tx.input[0].previous_output.txid.bytes, cancel.txid().bytes);
    assert_eq!(tx.input[0].previous_output.vout, 0);
    assert_eq!(tx.input[0].sequence, 7);
    assert_eq!(tx.output.len(), 1);
    assert_eq!(tx.output[0].value, 1_000_000 - 2 * TX_FEE);
    assert_eq!(tx.output[0].script_pubkey, address.script_pubkey);
    let script = build_shared_script(&a.public(), &b.public());
    assert_eq!(punish.digest().bytes, tx.signature_hash(0, &script, 999_000).bytes);
    let signed = punish
        .add_signatures((a.public(), a.sign(punish.digest())), (b.public(), b.sign(punish.digest())))
        .unwrap();
    assert_eq!(signed.txid().bytes, punish.txid().bytes);
    assert_eq!(signed.input[0].witness.len(), 3);
}

/// Alice redeems with Bob's signature as she decrypted it; Bob reads it off
/// the chain and has her scalar.
#[test]
fn published_redeem_gives_bob_the_scalar_of_alice() {
    let a = secret(3);
    let b = secret(4);
    let mut share = [0u8; 32];
    share[31] = 5;
    let s_a = SecretKey::from_bytes(share).unwrap();
    let lock = lock_for(&a, &b, 1_000_000);
    let redeem = TxRedeem::new(&lock, &Address { script_pubkey: vec![0x51] });

    let encsig = b.encsign(s_a.public(), redeem.digest());
    let sig_b = s_a.decsig(&encsig).unwrap();
    let published = redeem
        .add_signatures((a.public(), a.sign(redeem.digest())), (b.public(), sig_b))
        .unwrap();

    let seen = redeem.extract_signature_by_key(published, b.public()).unwrap();
    assert_eq!(seen.bytes, sig_b.bytes);
    let recovered = recover(s_a.public(), seen, encsig).unwrap();
    assert_eq!(recovered.to_bytes(), share);
}
