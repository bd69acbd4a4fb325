//! The output that both parties hold together, and how a transaction that
//! spends it is signed and read.

use crate::bitcoin::der::{der_signature, is_der_signature, signature_value};
use crate::bitcoin::error::{result_view, Error};
use crate::bitcoin::hashes::{hash, sha256};
use crate::bitcoin::keys::{ecdsa_verifies, verify_sig, PublicKey, SigHash, Signature};
use crate::bitcoin::transaction::{
    lemma_witness_changes_no_digest, push_bytes, txid_of, with_witness, Transaction,
    TransactionView, TxIn, TxOut,
};
use vstd::prelude::*;
use vstd::slice::{slice_subrange, slice_to_vec};

verus! {

/// The fee, in satoshi, that each transaction spending the shared output pays.
pub const TX_FEE: u64 = 1000;

/// The witness script of the shared output: a signature of the key `a` is
/// checked, then one of the key `b`, and both have to verify.
pub open spec fn shared_script(a: Seq<u8>, b: Seq<u8>) -> Seq<u8> {
    seq![0x21u8] + a + seq![0xadu8, 0x21u8] + b + seq![0xacu8]
}

/// The output script that pays to the witness script `script`.
pub open spec fn pay_to_witness_script(script: Seq<u8>) -> Seq<u8> {
    seq![0x00u8, 0x20u8] + sha256(script)
}

/// A signature as it stands on the witness stack: its DER encoding and the
/// byte that says that it commits to every input and output.
pub open spec fn witness_item(sig: Seq<u8>) -> Seq<u8> {
    der_signature(sig) + seq![0x01u8]
}

/// The witness stack that satisfies the shared script.
pub open spec fn shared_witness(a: Seq<u8>, b: Seq<u8>, sig_a: Seq<u8>, sig_b: Seq<u8>) -> Seq<
    Seq<u8>,
> {
    seq![witness_item(sig_b), witness_item(sig_a), shared_script(a, b)]
}

/// What signing the only input of `unsigned` gives, where that input spends
/// an output shared by the keys `a` and `b` and is signed for `digest`.
pub open spec fn signed_transaction(
    unsigned: TransactionView,
    digest: Seq<u8>,
    a: Seq<u8>,
    b: Seq<u8>,
    key_a: Seq<u8>,
    sig_a: Seq<u8>,
    key_b: Seq<u8>,
    sig_b: Seq<u8>,
) -> Result<TransactionView, Error> {
    if key_a != a || key_b != b {
        Err(Error::KeyNotInScript)
    } else if !ecdsa_verifies(a, digest, sig_a) || !ecdsa_verifies(b, digest, sig_b) {
        Err(Error::InvalidSignature)
    } else {
        Ok(with_witness(unsigned, 0, shared_witness(a, b, sig_a, sig_b)))
    }
}

/// The signature that an item of a witness stack holds: what its bytes but
/// the last decode to.
pub open spec fn stack_signature(item: Seq<u8>) -> Option<Seq<u8>> {
    if item.len() >= 1 && is_der_signature(item.drop_last()) {
        Some(signature_value(item.drop_last()))
    } else {
        None
    }
}

/// The signature of `key` on `digest` that the transaction `tx` carries on
/// the witness stack of its only input, or why there is none to be had.
pub open spec fn extracted(tx: TransactionView, key: Seq<u8>, digest: Seq<u8>) -> Result<
    Seq<u8>,
    Error,
> {
    if tx.input.len() == 0 {
        Err(Error::NoInputs)
    } else if tx.input.len() > 1 {
        Err(Error::TooManyInputs(tx.input.len() as usize))
    } else {
        let stack = tx.input[0].witness;
        if stack.len() == 0 {
            Err(Error::EmptyWitnessStack)
        } else if stack.len() != 3 {
            Err(Error::NotThreeWitnesses(stack.len() as usize))
        } else {
            match (stack_signature(stack[0]), stack_signature(stack[1])) {
                (Some(first), Some(second)) => if ecdsa_verifies(key, digest, first) {
                    Ok(first)
                } else if ecdsa_verifies(key, digest, second) {
                    Ok(second)
                } else {
                    Err(Error::NoMatchingSignature)
                },
                _ => Err(Error::MalformedSignature),
            }
        }
    }
}

/// Whether the two byte strings are the same.
pub fn bytes_equal(a: &[u8], b: &[u8]) -> (same: bool)
    ensures
        same == (a@ == b@),
{
    if a.len() != b.len() {
        return false;
    }
    let mut i: usize = 0;
    while i < a.len()
        invariant
            i <= a@.len(),
            a@.len() == b@.len(),
            forall|j: int| 0 <= j < i ==> a@[j] == b@[j],
        decreases a@.len() - i,
    {
        if a[i] != b[i] {
            return false;
        }
        i += 1;
    }
    assert(a@ =~= b@);
    true
}

/// Builds the witness script of the output shared by `a` and `b`.
pub fn build_shared_script(a: &PublicKey, b: &PublicKey) -> (script: Vec<u8>)
    ensures
        script@ == shared_script(a@, b@),
{
    let a_bytes = a.to_bytes();
    let b_bytes = b.to_bytes();
    let mut script: Vec<u8> = Vec::new();
    script.push(0x21);
    push_bytes(&mut script, a_bytes.as_slice());
    script.push(0xad);
    script.push(0x21);
    push_bytes(&mut script, b_bytes.as_slice());
    script.push(0xac);
    assert(script@ =~= shared_script(a@, b@));
    script
}

/// Builds the output script that pays to the output shared by `a` and `b`.
pub fn build_shared_script_pubkey(a: &PublicKey, b: &PublicKey) -> (script_pubkey: Vec<u8>)
    ensures
        script_pubkey@ == pay_to_witness_script(shared_script(a@, b@)),
{
    let script = build_shared_script(a, b);
    let digest = hash(script.as_slice());
    let mut out: Vec<u8> = Vec::new();
    out.push(0x00);
    out.push(0x20);
    push_bytes(&mut out, digest.as_slice());
    assert(out@ =~= pay_to_witness_script(shared_script(a@, b@)));
    out
}

fn build_witness_item(sig: &Signature) -> (item: Vec<u8>)
    ensures
        item@ == witness_item(sig@),
{
    let mut item = sig.to_der();
    item.push(0x01);
    item
}

fn read_witness_item(item: &Vec<u8>) -> (sig: Option<Signature>)
    ensures
        match sig {
            Some(s) => stack_signature(item@) == Some(s@),
            None => stack_signature(item@) is None,
        },
{
    if item.len() == 0 {
        None
    } else {
        Signature::from_der(slice_subrange(item.as_slice(), 0, item.len() - 1))
    }
}

/// Signs the only input of `unsigned`: checks that the two keys are those of
/// the output it spends and that each signature verifies, and puts the
/// signatures and the witness script on the input's witness stack.
pub(crate) fn sign_single_input(
    unsigned: &Transaction,
    digest: &SigHash,
    a: &PublicKey,
    b: &PublicKey,
    key_a: &PublicKey,
    sig_a: &Signature,
    key_b: &PublicKey,
    sig_b: &Signature,
) -> (signed: Result<Transaction, Error>)
    requires
        unsigned@.input.len() == 1,
        unsigned@.input[0].script_sig.len() == 0,
        unsigned@.output.len() == 1,
    ensures
        result_view(signed) == signed_transaction(
            unsigned@,
            digest@,
            a@,
            b@,
            key_a@,
            sig_a@,
            key_b@,
            sig_b@,
        ),
{
    if !key_a.same_as(a) || !key_b.same_as(b) {
        return Err(Error::KeyNotInScript);
    }
    if verify_sig(a, digest, sig_a).is_err() || verify_sig(b, digest, sig_b).is_err() {
        return Err(Error::InvalidSignature);
    }
    let mut witness: Vec<Vec<u8>> = Vec::new();
    witness.push(build_witness_item(sig_b));
    witness.push(build_witness_item(sig_a));
    witness.push(build_shared_script(a, b));
    let input = TxIn {
        previous_output: unsigned.input[0].previous_output,
        script_sig: Vec::new(),
        sequence: unsigned.input[0].sequence,
        witness,
    };
    let output = TxOut {
        value: unsigned.output[0].value,
        script_pubkey: slice_to_vec(unsigned.output[0].script_pubkey.as_slice()),
    };
    let mut inputs: Vec<TxIn> = Vec::new();
    inputs.push(input);
    let mut outputs: Vec<TxOut> = Vec::new();
    outputs.push(output);
    let signed = Transaction {
        version: unsigned.version,
        lock_time: unsigned.lock_time,
        input: inputs,
        output: outputs,
    };
    proof {
        let want = with_witness(unsigned@, 0, shared_witness(a@, b@, sig_a@, sig_b@));
        assert(signed@.input[0].witness =~= shared_witness(a@, b@, sig_a@, sig_b@));
        assert(signed@.input[0].script_sig =~= unsigned@.input[0].script_sig);
        assert(signed@.input[0] == want.input[0]);
        assert(signed@.input =~= want.input);
        assert(signed@.output[0] == unsigned@.output[0]);
        assert(signed@.output =~= want.output);
    }
    Ok(signed)
}

/// Reads the signature of `key` on `digest` off the witness stack of the
/// only input of `candidate`: of the two signatures there, the first that
/// verifies against `key`.
pub fn extract_signature_by_key(candidate: &Transaction, digest: &SigHash, key: &PublicKey) -> (sig:
    Result<Signature, Error>)
    ensures
        result_view(sig) == extracted(candidate@, key@, digest@),
{
    let inputs = candidate.input.len();
    if inputs == 0 {
        return Err(Error::NoInputs);
    }
    if inputs > 1 {
        return Err(Error::TooManyInputs(inputs));
    }
    let stack = &candidate.input[0].witness;
    let items = stack.len();
    assert(candidate@.input[0].witness.len() == items);
    if items == 0 {
        return Err(Error::EmptyWitnessStack);
    }
    if items != 3 {
        return Err(Error::NotThreeWitnesses(items));
    }
    assert(candidate@.input[0].witness[0] == stack@[0]@);
    assert(candidate@.input[0].witness[1] == stack@[1]@);
    match (read_witness_item(&stack[0]), read_witness_item(&stack[1])) {
        (Some(first), Some(second)) => {
            if verify_sig(key, digest, &first).is_ok() {
                Ok(first)
            } else if verify_sig(key, digest, &second).is_ok() {
                Ok(second)
            } else {
                Err(Error::NoMatchingSignature)
            }
        },
        _ => Err(Error::MalformedSignature),
    }
}

/// Signatures do not alter a transaction's identifier.
pub proof fn lemma_signing_keeps_txid(
    unsigned: TransactionView,
    digest: Seq<u8>,
    a: Seq<u8>,
    b: Seq<u8>,
    key_a: Seq<u8>,
    sig_a: Seq<u8>,
    key_b: Seq<u8>,
    sig_b: Seq<u8>,
)
    requires
        unsigned.input.len() >= 1,
        signed_transaction(unsigned, digest, a, b, key_a, sig_a, key_b, sig_b) is Ok,
    ensures
        txid_of(signed_transaction(unsigned, digest, a, b, key_a, sig_a, key_b, sig_b)->Ok_0)
            == txid_of(unsigned),
{
    lemma_witness_changes_no_digest(
        unsigned,
        0,
        shared_witness(a, b, sig_a, sig_b),
        0,
        Seq::empty(),
        0,
    );
}

/// A transaction signed by the two holders of the output it spends gives the
/// signature of the second key back, and that of the first key too unless the
/// second key's signature verifies against the first key as well.
pub proof fn lemma_signed_transaction_yields_signatures(
    unsigned: TransactionView,
    digest: Seq<u8>,
    a: Seq<u8>,
    b: Seq<u8>,
    sig_a: Seq<u8>,
    sig_b: Seq<u8>,
)
    requires
        unsigned.input.len() == 1,
        sig_a.len() == 64,
        sig_b.len() == 64,
        signed_transaction(unsigned, digest, a, b, a, sig_a, b, sig_b) is Ok,
    ensures
        extracted(
            signed_transaction(unsigned, digest, a, b, a, sig_a, b, sig_b)->Ok_0,
            b,
            digest,
        ) == Ok::<Seq<u8>, Error>(sig_b),
        !ecdsa_verifies(a, digest, sig_b) ==> extracted(
            signed_transaction(unsigned, digest, a, b, a, sig_a, b, sig_b)->Ok_0,
            a,
            digest,
        ) == Ok::<Seq<u8>, Error>(sig_a),
{
    crate::bitcoin::der::lemma_der_signature_round_trip(sig_a);
    crate::bitcoin::der::lemma_der_signature_round_trip(sig_b);
    assert(witness_item(sig_a).drop_last() =~= der_signature(sig_a));
    assert(witness_item(sig_b).drop_last() =~= der_signature(sig_b));
}

} // verus!
