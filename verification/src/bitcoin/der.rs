//! The DER encoding of an ECDSA signature, as it stands on a witness stack,
//! and its strict decoder.

use crate::bitcoin::keys::Signature;
use vstd::prelude::*;

verus! {

/// The number of zero bytes at the front of `s` that can go without changing
/// the number it spells and without emptying it.
pub open spec fn leading_zeros(s: Seq<u8>) -> nat
    decreases s.len(),
{
    if s.len() > 1 && s[0] == 0 {
        1 + leading_zeros(s.drop_first())
    } else {
        0
    }
}

/// `s` without its leading zero bytes, but never empty.
pub open spec fn strip_zeros(s: Seq<u8>) -> Seq<u8> {
    s.subrange(leading_zeros(s) as int, s.len() as int)
}

/// `m` behind as many zero bytes as it takes to reach `n` bytes.
pub open spec fn left_pad(m: Seq<u8>, n: nat) -> Seq<u8> {
    Seq::new(
        n,
        |i: int|
            if i < n - m.len() {
                0u8
            } else {
                m[i - (n - m.len())]
            },
    )
}

/// The DER encoding of the integer that the 32 bytes `v` spell, most
/// significant byte first: tag, length, and the shortest two's complement
/// form of a number that is not negative.
pub open spec fn der_integer(v: Seq<u8>) -> Seq<u8> {
    let m = strip_zeros(v);
    let body = if m[0] >= 0x80 {
        seq![0u8] + m
    } else {
        m
    };
    seq![0x02u8, body.len() as u8] + body
}

/// The DER encoding of the signature `r || s` given in 64 bytes.
pub open spec fn der_signature(sig: Seq<u8>) -> Seq<u8> {
    let r = der_integer(sig.subrange(0, 32));
    let s = der_integer(sig.subrange(32, 64));
    seq![0x30u8, (r.len() + s.len()) as u8] + r + s
}

/// What is left of an integer's content bytes without the zero byte that
/// only keeps the number from being read as negative.
pub open spec fn magnitude(body: Seq<u8>) -> Seq<u8> {
    if body.len() > 1 && body[0] == 0 {
        body.drop_first()
    } else {
        body
    }
}

/// Whether `t` is a tag, a length and the shortest encoding of a number that
/// is not negative and fits in 32 bytes.
pub open spec fn is_der_integer(t: Seq<u8>) -> bool {
    &&& 3 <= t.len() <= 35
    &&& t[0] == 0x02
    &&& t[1] as int == t.len() - 2
    &&& t[2] < 0x80
    &&& (t[2] == 0 && t.len() > 3 ==> t[3] >= 0x80)
    &&& (t.len() == 35 ==> t[2] == 0)
}

/// The 32 bytes of the number that a DER integer encodes.
pub open spec fn integer_value(t: Seq<u8>) -> Seq<u8> {
    left_pad(magnitude(t.subrange(2, t.len() as int)), 32)
}

/// Where the second integer of a DER signature begins.
pub open spec fn second_integer_at(b: Seq<u8>) -> int {
    4 + b[3] as int
}

/// Whether `b` is a DER sequence of exactly two integers as `is_der_integer`
/// wants them.
pub open spec fn is_der_signature(b: Seq<u8>) -> bool {
    &&& 4 <= b.len()
    &&& b[0] == 0x30
    &&& b[1] as int == b.len() - 2
    &&& second_integer_at(b) <= b.len()
    &&& is_der_integer(b.subrange(2, second_integer_at(b)))
    &&& is_der_integer(b.subrange(second_integer_at(b), b.len() as int))
}

/// The 64 bytes `r || s` that a DER signature encodes.
pub open spec fn signature_value(b: Seq<u8>) -> Seq<u8> {
    integer_value(b.subrange(2, second_integer_at(b))) + integer_value(
        b.subrange(second_integer_at(b), b.len() as int),
    )
}

proof fn lemma_leading_zeros(s: Seq<u8>)
    requires
        s.len() >= 1,
    ensures
        leading_zeros(s) < s.len(),
        forall|j: int| 0 <= j < leading_zeros(s) ==> s[j] == 0,
        s[leading_zeros(s) as int] != 0 || leading_zeros(s) == s.len() - 1,
    decreases s.len(),
{
    if s.len() > 1 && s[0] == 0 {
        let t = s.drop_first();
        lemma_leading_zeros(t);
        assert forall|j: int| 0 <= j < leading_zeros(s) implies s[j] == 0 by {
            if j > 0 {
                assert(s[j] == t[j - 1]);
            }
        }
        assert(s[leading_zeros(s) as int] == t[leading_zeros(t) as int]);
    }
}

proof fn lemma_leading_zeros_at(s: Seq<u8>, k: int)
    requires
        0 <= k < s.len(),
        forall|j: int| 0 <= j < k ==> s[j] == 0,
        s[k] != 0 || k == s.len() - 1,
    ensures
        leading_zeros(s) == k,
    decreases k,
{
    if k > 0 {
        let t = s.drop_first();
        assert(s[0] == 0);
        assert forall|j: int| 0 <= j < k - 1 implies t[j] == 0 by {
            assert(t[j] == s[j + 1]);
        }
        lemma_leading_zeros_at(t, k - 1);
    }
}

/// An encoded integer is well formed, and decodes to the number it was made
/// of.
pub proof fn lemma_der_integer_round_trip(v: Seq<u8>)
    requires
        v.len() == 32,
    ensures
        is_der_integer(der_integer(v)),
        integer_value(der_integer(v)) == v,
{
    lemma_leading_zeros(v);
    let k = leading_zeros(v) as int;
    let m = strip_zeros(v);
    let body = if m[0] >= 0x80 {
        seq![0u8] + m
    } else {
        m
    };
    let t = der_integer(v);
    assert(t.subrange(2, t.len() as int) =~= body);
    assert(magnitude(body) =~= m);
    assert(integer_value(t) =~= v);
}

/// A well-formed integer is the encoding of the number it decodes to.
pub proof fn lemma_der_integer_canonical(t: Seq<u8>)
    requires
        is_der_integer(t),
    ensures
        integer_value(t).len() == 32,
        der_integer(integer_value(t)) == t,
{
    let body = t.subrange(2, t.len() as int);
    let m = magnitude(body);
    let v = integer_value(t);
    let k = 32 - m.len();
    assert(body[0] == t[2]);
    if body.len() > 1 {
        assert(body[1] == t[3]);
    }
    assert(v[k] == m[0]);
    lemma_leading_zeros_at(v, k);
    assert(strip_zeros(v) =~= m);
    let again = if m[0] >= 0x80 {
        seq![0u8] + m
    } else {
        m
    };
    assert(again =~= body);
    assert(der_integer(v) =~= t);
}

/// An encoded signature is well formed, and decodes to the signature it was
/// made of.
pub proof fn lemma_der_signature_round_trip(sig: Seq<u8>)
    requires
        sig.len() == 64,
    ensures
        is_der_signature(der_signature(sig)),
        signature_value(der_signature(sig)) == sig,
{
    let r = der_integer(sig.subrange(0, 32));
    let s = der_integer(sig.subrange(32, 64));
    let b = der_signature(sig);
    lemma_der_integer_round_trip(sig.subrange(0, 32));
    lemma_der_integer_round_trip(sig.subrange(32, 64));
    assert(b[3] == r[1]);
    assert(b.subrange(2, second_integer_at(b)) =~= r);
    assert(b.subrange(second_integer_at(b), b.len() as int) =~= s);
    assert(signature_value(b) =~= sig);
}

/// A well-formed signature is the encoding of the signature it decodes to.
pub proof fn lemma_der_signature_canonical(b: Seq<u8>)
    requires
        is_der_signature(b),
    ensures
        signature_value(b).len() == 64,
        der_signature(signature_value(b)) == b,
{
    let r = b.subrange(2, second_integer_at(b));
    let s = b.subrange(second_integer_at(b), b.len() as int);
    lemma_der_integer_canonical(r);
    lemma_der_integer_canonical(s);
    let v = signature_value(b);
    assert(v.subrange(0, 32) =~= integer_value(r));
    assert(v.subrange(32, 64) =~= integer_value(s));
    assert(der_signature(v) =~= b);
}

/// No two signatures share an encoding.
pub proof fn lemma_der_signature_injective(a: Seq<u8>, b: Seq<u8>)
    requires
        a.len() == 64,
        b.len() == 64,
        der_signature(a) == der_signature(b),
    ensures
        a == b,
{
    lemma_der_signature_round_trip(a);
    lemma_der_signature_round_trip(b);
}

/// What decoding `bytes` gives: the signature whose encoding they are, or
/// nothing where they are the encoding of none.
pub open spec fn der_decoded(bytes: Seq<u8>, decoded: Option<Signature>) -> bool {
    match decoded {
        Some(sig) => der_signature(sig@) == bytes,
        None => forall|sig: Seq<u8>| sig.len() == 64 ==> der_signature(sig) != bytes,
    }
}

/// Appends the DER integer of the 32 bytes of `v` that begin at `from`.
fn push_der_integer(out: &mut Vec<u8>, v: &[u8; 64], from: usize)
    requires
        from == 0 || from == 32,
    ensures
        final(out)@ == old(out)@ + der_integer(v@.subrange(from as int, from + 32)),
{
    let ghost w = v@.subrange(from as int, from + 32);
    let mut k: usize = 0;
    while k < 31 && v[from + k] == 0
        invariant
            k <= 31,
            from == 0 || from == 32,
            w == v@.subrange(from as int, from + 32),
            forall|j: int| 0 <= j < k ==> w[j] == 0,
        decreases 31 - k,
    {
        k += 1;
    }
    proof {
        assert(w[k as int] == v@[from + k]);
        lemma_leading_zeros_at(w, k as int);
    }
    let ghost m = strip_zeros(w);
    let ghost start = out@;
    let padded = v[from + k] >= 0x80;
    let len: u8 = if padded {
        (33 - k) as u8
    } else {
        (32 - k) as u8
    };
    out.push(0x02);
    out.push(len);
    if padded {
        out.push(0);
    }
    let ghost head = out@;
    let mut i: usize = k;
    while i < 32
        invariant
            k <= i <= 32,
            from == 0 || from == 32,
            w == v@.subrange(from as int, from + 32),
            out@ == head + w.subrange(k as int, i as int),
        decreases 32 - i,
    {
        out.push(v[from + i]);
        assert(w.subrange(k as int, i as int).push(w[i as int]) =~= w.subrange(
            k as int,
            i + 1,
        ));
        i += 1;
    }
    assert(out@ =~= start + der_integer(w));
}

/// Decodes the DER integer that `bytes` hold from `start` up to `end`.
fn decode_der_integer(bytes: &[u8], start: usize, end: usize) -> (value: Option<[u8; 32]>)
    requires
        start <= end <= bytes@.len(),
    ensures
        value is Some <==> is_der_integer(bytes@.subrange(start as int, end as int)),
        value matches Some(v) ==> v@ == integer_value(bytes@.subrange(start as int, end as int)),
{
    let ghost t = bytes@.subrange(start as int, end as int);
    let n = end - start;
    if n < 3 || n > 35 {
        return None;
    }
    assert(t[0] == bytes@[start as int] && t[1] == bytes@[start + 1] && t[2] == bytes@[start + 2]);
    if bytes[start] != 0x02 || bytes[start + 1] as usize != n - 2 || bytes[start + 2] >= 0x80 {
        return None;
    }
    if n > 3 {
        assert(t[3] == bytes@[start + 3]);
        if bytes[start + 2] == 0 && bytes[start + 3] < 0x80 {
            return None;
        }
    }
    if n == 35 && bytes[start + 2] != 0 {
        return None;
    }
    let skip: usize = if n > 3 && bytes[start + 2] == 0 {
        3
    } else {
        2
    };
    let ghost m = magnitude(t.subrange(2, t.len() as int));
    assert(m =~= bytes@.subrange(start + skip, end as int));
    let width = n - skip;
    let mut out = [0u8; 32];
    let mut i: usize = 0;
    while i < width
        invariant
            i <= width <= 32,
            width == end - (start + skip),
            end <= bytes@.len(),
            m == bytes@.subrange(start + skip, end as int),
            forall|j: int| 0 <= j < 32 - width ==> out@[j] == 0,
            forall|j: int| 32 - width <= j < 32 - width + i ==> out@[j] == m[j - (32 - width)],
        decreases width - i,
    {
        out[32 - width + i] = bytes[start + skip + i];
        i += 1;
    }
    assert(out@ =~= left_pad(m, 32));
    Some(out)
}

impl Signature {
    /// The signature's DER encoding.
    pub fn to_der(&self) -> (out: Vec<u8>)
        ensures
            out@ == der_signature(self@),
    {
        let mut body: Vec<u8> = Vec::new();
        push_der_integer(&mut body, &self.bytes, 0);
        push_der_integer(&mut body, &self.bytes, 32);
        proof {
            lemma_der_integer_round_trip(self@.subrange(0, 32));
            lemma_der_integer_round_trip(self@.subrange(32, 64));
        }
        let mut out: Vec<u8> = Vec::new();
        out.push(0x30);
        out.push(body.len() as u8);
        out.extend_from_slice(body.as_slice());
        assert(out@ =~= der_signature(self@));
        out
    }

    /// The signature that `bytes` encode. Only the one encoding that
    /// `to_der` produces of a signature is accepted.
    pub fn from_der(bytes: &[u8]) -> (decoded: Option<Signature>)
        ensures
            der_decoded(bytes@, decoded),
            decoded is Some <==> is_der_signature(bytes@),
            decoded matches Some(sig) ==> sig@ == signature_value(bytes@),
    {
        let n = bytes.len();
        proof {
            assert forall|sig: Seq<u8>| sig.len() == 64 && der_signature(sig) == bytes@ implies
                is_der_signature(bytes@) by {
                lemma_der_signature_round_trip(sig);
            }
        }
        if n < 4 || n > 72 {
            assert(is_der_signature(bytes@) ==> n <= 72);
            return None;
        }
        if bytes[0] != 0x30 || bytes[1] as usize != n - 2 {
            return None;
        }
        let second = 4 + bytes[3] as usize;
        if second > n {
            return None;
        }
        let r = decode_der_integer(bytes, 2, second);
        let s = decode_der_integer(bytes, second, n);
        match (r, s) {
            (Some(r), Some(s)) => {
                let mut out = [0u8; 64];
                let mut i: usize = 0;
                while i < 32
                    invariant
                        i <= 32,
                        forall|j: int| 0 <= j < i ==> out@[j] == r@[j],
                        forall|j: int| 0 <= j < i ==> out@[32 + j] == s@[j],
                    decreases 32 - i,
                {
                    out[i] = r[i];
                    out[32 + i] = s[i];
                    i += 1;
                }
                proof {
                    assert(out@ =~= signature_value(bytes@));
                    lemma_der_signature_canonical(bytes@);
                }
                Some(Signature { bytes: out })
            },
            _ => None,
        }
    }
}

} // verus!
