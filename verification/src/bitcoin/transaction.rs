//! Transactions as plain values, their serialization, and the two digests
//! taken of them: the identifier and the digest that a signature commits to.

use crate::bitcoin::hashes::{hash_twice, sha256d};
use crate::bitcoin::keys::SigHash;
use vstd::prelude::*;

verus! {

/// The identifier of a transaction: the double SHA-256 of its serialization
/// without witnesses.
#[derive(Debug, Clone, Copy)]
pub struct Txid {
    pub bytes: [u8; 32],
}

impl View for Txid {
    type V = Seq<u8>;

    open spec fn view(&self) -> Seq<u8> {
        self.bytes@
    }
}

/// A reference to one output of a transaction.
#[derive(Debug, Clone, Copy)]
pub struct OutPoint {
    pub txid: Txid,
    pub vout: u32,
}

pub struct OutPointView {
    pub txid: Seq<u8>,
    pub vout: u32,
}

impl View for OutPoint {
    type V = OutPointView;

    open spec fn view(&self) -> OutPointView {
        OutPointView { txid: self.txid@, vout: self.vout }
    }
}

/// An input: the output it spends, and what satisfies that output's script.
#[derive(Debug, Clone)]
pub struct TxIn {
    pub previous_output: OutPoint,
    pub script_sig: Vec<u8>,
    pub sequence: u32,
    pub witness: Vec<Vec<u8>>,
}

pub struct TxInView {
    pub previous_output: OutPointView,
    pub script_sig: Seq<u8>,
    pub sequence: u32,
    pub witness: Seq<Seq<u8>>,
}

impl View for TxIn {
    type V = TxInView;

    open spec fn view(&self) -> TxInView {
        TxInView {
            previous_output: self.previous_output@,
            script_sig: self.script_sig@,
            sequence: self.sequence,
            witness: Seq::new(self.witness@.len(), |i: int| self.witness@[i]@),
        }
    }
}

/// An output: an amount in satoshi and the script that guards it.
#[derive(Debug, Clone)]
pub struct TxOut {
    pub value: u64,
    pub script_pubkey: Vec<u8>,
}

pub struct TxOutView {
    pub value: u64,
    pub script_pubkey: Seq<u8>,
}

impl View for TxOut {
    type V = TxOutView;

    open spec fn view(&self) -> TxOutView {
        TxOutView { value: self.value, script_pubkey: self.script_pubkey@ }
    }
}

#[derive(Debug, Clone)]
pub struct Transaction {
    pub version: u32,
    pub lock_time: u32,
    pub input: Vec<TxIn>,
    pub output: Vec<TxOut>,
}

pub struct TransactionView {
    pub version: u32,
    pub lock_time: u32,
    pub input: Seq<TxInView>,
    pub output: Seq<TxOutView>,
}

impl View for Transaction {
    type V = TransactionView;

    open spec fn view(&self) -> TransactionView {
        TransactionView {
            version: self.version,
            lock_time: self.lock_time,
            input: Seq::new(self.input@.len(), |i: int| self.input@[i]@),
            output: Seq::new(self.output@.len(), |i: int| self.output@[i]@),
        }
    }
}

/// The four bytes of `x`, least significant first.
pub open spec fn u32_le(x: u32) -> Seq<u8> {
    seq![
        (x % 256) as u8,
        (x / 256 % 256) as u8,
        (x / 65536 % 256) as u8,
        (x / 16777216) as u8,
    ]
}

/// The eight bytes of `x`, least significant first.
pub open spec fn u64_le(x: u64) -> Seq<u8> {
    u32_le((x % 0x1_0000_0000) as u32) + u32_le((x / 0x1_0000_0000) as u32)
}

/// The variable-length encoding of a count or a length.
pub open spec fn compact_size(n: nat) -> Seq<u8> {
    if n < 0xfd {
        seq![n as u8]
    } else if n <= 0xffff {
        seq![0xfdu8, (n % 256) as u8, (n / 256) as u8]
    } else if n <= 0xffff_ffff {
        seq![0xfeu8] + u32_le(n as u32)
    } else {
        seq![0xffu8] + u64_le(n as u64)
    }
}

/// The encodings of the items of `s`, one behind the other.
pub open spec fn concat_map<T>(s: Seq<T>, f: spec_fn(T) -> Seq<u8>) -> Seq<u8>
    decreases s.len(),
{
    if s.len() == 0 {
        Seq::empty()
    } else {
        concat_map(s.drop_last(), f) + f(s.last())
    }
}

pub open spec fn outpoint_bytes(o: OutPointView) -> Seq<u8> {
    o.txid + u32_le(o.vout)
}

pub open spec fn sequence_bytes(i: TxInView) -> Seq<u8> {
    u32_le(i.sequence)
}

pub open spec fn prevout_bytes(i: TxInView) -> Seq<u8> {
    outpoint_bytes(i.previous_output)
}

/// An input as it is serialized for the identifier: without its witness.
pub open spec fn input_bytes(i: TxInView) -> Seq<u8> {
    outpoint_bytes(i.previous_output) + compact_size(i.script_sig.len()) + i.script_sig + u32_le(
        i.sequence,
    )
}

pub open spec fn output_bytes(o: TxOutView) -> Seq<u8> {
    u64_le(o.value) + compact_size(o.script_pubkey.len()) + o.script_pubkey
}

/// The serialization of a transaction without its witnesses.
pub open spec fn transaction_bytes(tx: TransactionView) -> Seq<u8> {
    u32_le(tx.version) + compact_size(tx.input.len()) + concat_map(
        tx.input,
        |i: TxInView| input_bytes(i),
    ) + compact_size(tx.output.len()) + concat_map(tx.output, |o: TxOutView| output_bytes(o))
        + u32_le(tx.lock_time)
}

/// The identifier of a transaction.
pub open spec fn txid_of(tx: TransactionView) -> Seq<u8> {
    sha256d(transaction_bytes(tx))
}

/// What is hashed for a signature on input `index` that commits to every
/// input and output, where that input spends `value` satoshi guarded by the
/// witness script `script_code`.
pub open spec fn sighash_preimage(
    tx: TransactionView,
    index: int,
    script_code: Seq<u8>,
    value: u64,
) -> Seq<u8> {
    u32_le(tx.version) + sha256d(concat_map(tx.input, |i: TxInView| prevout_bytes(i))) + sha256d(
        concat_map(tx.input, |i: TxInView| sequence_bytes(i)),
    ) + outpoint_bytes(tx.input[index].previous_output) + compact_size(script_code.len())
        + script_code + u64_le(value) + u32_le(tx.input[index].sequence) + sha256d(
        concat_map(tx.output, |o: TxOutView| output_bytes(o)),
    ) + u32_le(tx.lock_time) + u32_le(1)
}

/// The digest that such a signature commits to.
pub open spec fn sighash_of(tx: TransactionView, index: int, script_code: Seq<u8>, value: u64) -> Seq<
    u8,
> {
    sha256d(sighash_preimage(tx, index, script_code, value))
}

/// `tx` with `witness` on its input `index`.
pub open spec fn with_witness(tx: TransactionView, index: int, witness: Seq<Seq<u8>>) -> TransactionView {
    TransactionView {
        input: tx.input.update(index, TxInView { witness, ..tx.input[index] }),
        ..tx
    }
}

proof fn lemma_concat_map_step<T>(s: Seq<T>, f: spec_fn(T) -> Seq<u8>, i: int)
    requires
        0 <= i < s.len(),
    ensures
        concat_map(s.subrange(0, i + 1), f) == concat_map(s.subrange(0, i), f) + f(s[i]),
{
    assert(s.subrange(0, i + 1).drop_last() =~= s.subrange(0, i));
}

proof fn lemma_concat_map_same<T>(s: Seq<T>, t: Seq<T>, f: spec_fn(T) -> Seq<u8>)
    requires
        s.len() == t.len(),
        forall|i: int| 0 <= i < s.len() ==> f(s[i]) == f(t[i]),
    ensures
        concat_map(s, f) == concat_map(t, f),
    decreases s.len(),
{
    if s.len() > 0 {
        lemma_concat_map_same(s.drop_last(), t.drop_last(), f);
    }
}

/// Neither the identifier of a transaction nor the digest that is signed
/// depends on a witness.
pub proof fn lemma_witness_changes_no_digest(
    tx: TransactionView,
    index: int,
    witness: Seq<Seq<u8>>,
    at: int,
    script_code: Seq<u8>,
    value: u64,
)
    requires
        0 <= index < tx.input.len(),
        0 <= at < tx.input.len(),
    ensures
        txid_of(with_witness(tx, index, witness)) == txid_of(tx),
        sighash_of(with_witness(tx, index, witness), at, script_code, value) == sighash_of(
            tx,
            at,
            script_code,
            value,
        ),
{
    let signed = with_witness(tx, index, witness);
    lemma_concat_map_same(signed.input, tx.input, |i: TxInView| input_bytes(i));
    lemma_concat_map_same(signed.input, tx.input, |i: TxInView| prevout_bytes(i));
    lemma_concat_map_same(signed.input, tx.input, |i: TxInView| sequence_bytes(i));
    assert(signed.input[at].previous_output == tx.input[at].previous_output);
    assert(signed.input[at].sequence == tx.input[at].sequence);
}

/// Appends the four bytes of `x`, least significant first.
pub fn push_u32(out: &mut Vec<u8>, x: u32)
    ensures
        final(out)@ == old(out)@ + u32_le(x),
{
    let ghost start = out@;
    out.push((x % 256) as u8);
    out.push((x / 256 % 256) as u8);
    out.push((x / 65536 % 256) as u8);
    out.push((x / 16777216) as u8);
    assert(out@ =~= start + u32_le(x));
}

/// Appends the eight bytes of `x`, least significant first.
pub fn push_u64(out: &mut Vec<u8>, x: u64)
    ensures
        final(out)@ == old(out)@ + u64_le(x),
{
    let ghost start = out@;
    push_u32(out, (x % 0x1_0000_0000) as u32);
    push_u32(out, (x / 0x1_0000_0000) as u32);
    assert(out@ =~= start + u64_le(x));
}

/// Appends the variable-length encoding of `n`.
pub fn push_compact_size(out: &mut Vec<u8>, n: usize)
    ensures
        final(out)@ == old(out)@ + compact_size(n as nat),
{
    let ghost start = out@;
    if n < 0xfd {
        out.push(n as u8);
    } else if n <= 0xffff {
        out.push(0xfd);
        out.push((n % 256) as u8);
        out.push((n / 256) as u8);
    } else if n <= 0xffff_ffff {
        out.push(0xfe);
        push_u32(out, n as u32);
    } else {
        out.push(0xff);
        push_u64(out, n as u64);
    }
    assert(out@ =~= start + compact_size(n as nat));
}

/// Appends `bytes`.
pub fn push_bytes(out: &mut Vec<u8>, bytes: &[u8])
    ensures
        final(out)@ == old(out)@ + bytes@,
{
    let ghost start = out@;
    let mut i: usize = 0;
    while i < bytes.len()
        invariant
            i <= bytes@.len(),
            out@ == start + bytes@.subrange(0, i as int),
        decreases bytes@.len() - i,
    {
        out.push(bytes[i]);
        assert(bytes@.subrange(0, i as int).push(bytes@[i as int]) =~= bytes@.subrange(0, i + 1));
        i += 1;
    }
    assert(bytes@.subrange(0, bytes@.len() as int) =~= bytes@);
}

fn push_outpoint(out: &mut Vec<u8>, outpoint: &OutPoint)
    ensures
        final(out)@ == old(out)@ + outpoint_bytes(outpoint@),
{
    let ghost start = out@;
    push_bytes(out, outpoint.txid.bytes.as_slice());
    push_u32(out, outpoint.vout);
    assert(out@ =~= start + outpoint_bytes(outpoint@));
}

fn push_input(out: &mut Vec<u8>, input: &TxIn)
    ensures
        final(out)@ == old(out)@ + input_bytes(input@),
{
    let ghost start = out@;
    push_outpoint(out, &input.previous_output);
    push_compact_size(out, input.script_sig.len());
    push_bytes(out, input.script_sig.as_slice());
    push_u32(out, input.sequence);
    assert(out@ =~= start + input_bytes(input@));
}

fn push_output(out: &mut Vec<u8>, output: &TxOut)
    ensures
        final(out)@ == old(out)@ + output_bytes(output@),
{
    let ghost start = out@;
    push_u64(out, output.value);
    push_compact_size(out, output.script_pubkey.len());
    push_bytes(out, output.script_pubkey.as_slice());
    assert(out@ =~= start + output_bytes(output@));
}

impl Transaction {
    fn push_inputs(&self, out: &mut Vec<u8>)
        ensures
            final(out)@ == old(out)@ + concat_map(self@.input, |i: TxInView| input_bytes(i)),
    {
        let ghost start = out@;
        let ghost f = |i: TxInView| input_bytes(i);
        let mut k: usize = 0;
        while k < self.input.len()
            invariant
                k <= self.input@.len(),
                f == |i: TxInView| input_bytes(i),
                out@ == start + concat_map(self@.input.subrange(0, k as int), f),
            decreases self.input@.len() - k,
        {
            push_input(out, &self.input[k]);
            proof {
                lemma_concat_map_step(self@.input, f, k as int);
                assert(f(self@.input[k as int]) == input_bytes(self.input@[k as int]@));
            }
            k += 1;
        }
        assert(self@.input.subrange(0, k as int) =~= self@.input);
    }

    fn push_prevouts(&self, out: &mut Vec<u8>)
        ensures
            final(out)@ == old(out)@ + concat_map(self@.input, |i: TxInView| prevout_bytes(i)),
    {
        let ghost start = out@;
        let ghost f = |i: TxInView| prevout_bytes(i);
        let mut k: usize = 0;
        while k < self.input.len()
            invariant
                k <= self.input@.len(),
                f == |i: TxInView| prevout_bytes(i),
                out@ == start + concat_map(self@.input.subrange(0, k as int), f),
            decreases self.input@.len() - k,
        {
            push_outpoint(out, &self.input[k].previous_output);
            proof {
                lemma_concat_map_step(self@.input, f, k as int);
                assert(f(self@.input[k as int]) == prevout_bytes(self.input@[k as int]@));
            }
            k += 1;
        }
        assert(self@.input.subrange(0, k as int) =~= self@.input);
    }

    fn push_sequences(&self, out: &mut Vec<u8>)
        ensures
            final(out)@ == old(out)@ + concat_map(self@.input, |i: TxInView| sequence_bytes(i)),
    {
        let ghost start = out@;
        let ghost f = |i: TxInView| sequence_bytes(i);
        let mut k: usize = 0;
        while k < self.input.len()
            invariant
                k <= self.input@.len(),
                f == |i: TxInView| sequence_bytes(i),
                out@ == start + concat_map(self@.input.subrange(0, k as int), f),
            decreases self.input@.len() - k,
        {
            push_u32(out, self.input[k].sequence);
            proof {
                lemma_concat_map_step(self@.input, f, k as int);
                assert(f(self@.input[k as int]) == sequence_bytes(self.input@[k as int]@));
            }
            k += 1;
        }
        assert(self@.input.subrange(0, k as int) =~= self@.input);
    }

    fn push_outputs(&self, out: &mut Vec<u8>)
        ensures
            final(out)@ == old(out)@ + concat_map(self@.output, |o: TxOutView| output_bytes(o)),
    {
        let ghost start = out@;
        let ghost f = |o: TxOutView| output_bytes(o);
        let mut k: usize = 0;
        while k < self.output.len()
            invariant
                k <= self.output@.len(),
                f == |o: TxOutView| output_bytes(o),
                out@ == start + concat_map(self@.output.subrange(0, k as int), f),
            decreases self.output@.len() - k,
        {
            push_output(out, &self.output[k]);
            proof {
                lemma_concat_map_step(self@.output, f, k as int);
                assert(f(self@.output[k as int]) == output_bytes(self.output@[k as int]@));
            }
            k += 1;
        }
        assert(self@.output.subrange(0, k as int) =~= self@.output);
    }

    /// The serialization without witnesses.
    pub fn serialize(&self) -> (out: Vec<u8>)
        ensures
            out@ == transaction_bytes(self@),
    {
        let mut out: Vec<u8> = Vec::new();
        push_u32(&mut out, self.version);
        push_compact_size(&mut out, self.input.len());
        self.push_inputs(&mut out);
        push_compact_size(&mut out, self.output.len());
        self.push_outputs(&mut out);
        push_u32(&mut out, self.lock_time);
        assert(out@ =~= transaction_bytes(self@));
        out
    }

    /// The transaction's identifier.
    pub fn txid(&self) -> (txid: Txid)
        ensures
            txid@ == txid_of(self@),
    {
        let bytes = self.serialize();
        Txid { bytes: hash_twice(bytes.as_slice()) }
    }

    /// The digest that a signature on input `index` commits to, where that
    /// input spends `value` satoshi guarded by the witness script
    /// `script_code`.
    pub fn signature_hash(&self, index: usize, script_code: &[u8], value: u64) -> (digest: SigHash)
        requires
            index < self@.input.len(),
        ensures
            digest@ == sighash_of(self@, index as int, script_code@, value),
    {
        let mut prevouts: Vec<u8> = Vec::new();
        self.push_prevouts(&mut prevouts);
        let mut sequences: Vec<u8> = Vec::new();
        self.push_sequences(&mut sequences);
        let mut outputs: Vec<u8> = Vec::new();
        self.push_outputs(&mut outputs);
        assert(prevouts@ =~= concat_map(self@.input, |i: TxInView| prevout_bytes(i)));
        assert(sequences@ =~= concat_map(self@.input, |i: TxInView| sequence_bytes(i)));
        assert(outputs@ =~= concat_map(self@.output, |o: TxOutView| output_bytes(o)));
        let hash_prevouts = hash_twice(prevouts.as_slice());
        let hash_sequences = hash_twice(sequences.as_slice());
        let hash_outputs = hash_twice(outputs.as_slice());
        let mut out: Vec<u8> = Vec::new();
        push_u32(&mut out, self.version);
        push_bytes(&mut out, hash_prevouts.as_slice());
        push_bytes(&mut out, hash_sequences.as_slice());
        push_outpoint(&mut out, &self.input[index].previous_output);
        push_compact_size(&mut out, script_code.len());
        push_bytes(&mut out, script_code);
        push_u64(&mut out, value);
        push_u32(&mut out, self.input[index].sequence);
        push_bytes(&mut out, hash_outputs.as_slice());
        push_u32(&mut out, self.lock_time);
        push_u32(&mut out, 1);
        assert(out@ =~= sighash_preimage(self@, index as int, script_code@, value));
        SigHash { bytes: hash_twice(out.as_slice()) }
    }
}

} // verus!
