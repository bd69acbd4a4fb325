//! The Monero side of the swap: scalars modulo the order of the Ed25519
//! group, and points of the curve in their compressed encoding.

use crate::bitcoin;
use crate::bytes::{be_nat, le_nat, lemma_reverse_swaps_byte_order, reversed};
use curve25519_dalek::edwards::{CompressedEdwardsY, EdwardsPoint};
use vstd::prelude::*;

verus! {

/// The order of the Ed25519 group: 2^252 + 27742317777372353535851937790883648493.
pub open spec fn group_order() -> nat {
    0x10000000_00000000_00000000_00000000_14DEF9DE_A2F79CD6_5812631A_5CF5D3EDnat
}

/// The prime of the field over which the curve is defined: 2^255 - 19.
pub open spec fn field_prime() -> nat {
    0x7FFFFFFF_FFFFFFFF_FFFFFFFF_FFFFFFFF_FFFFFFFF_FFFFFFFF_FFFFFFFF_FFFFFFEDnat
}

/// The curve's constant `d`: -121665/121666 in the field.
pub open spec fn edwards_d() -> nat {
    0x52036CEE_2B6FFE73_8CC74079_7779E898_00700A4D_4141D8AB_75EB4DCA_135978A3nat
}

/// Whether `(x, y)` is a point of the curve `-x^2 + y^2 = 1 + d x^2 y^2` over
/// the field.
pub open spec fn lies_on_ed25519(x: nat, y: nat) -> bool {
    &&& x < field_prime()
    &&& y < field_prime()
    &&& (x * x * (edwards_d() * y * y + 1)) % field_prime() == (y * y + field_prime() - 1)
        % (field_prime() as int)
}

/// The y-coordinate that 32 bytes encode: the number in their low 255 bits,
/// least significant byte first, taken in the field.
pub open spec fn encoded_y(bytes: Seq<u8>) -> nat {
    (le_nat(bytes) % 0x80000000_00000000_00000000_00000000_00000000_00000000_00000000_00000000nat)
        % field_prime()
}

/// Whether 32 bytes are the compressed encoding of a point of the curve:
/// the y-coordinate of a point, and in the highest bit the sign of its
/// x-coordinate.
pub open spec fn ed25519_point(bytes: Seq<u8>) -> bool {
    &&& bytes.len() == 32
    &&& exists|x: nat| lies_on_ed25519(x, encoded_y(bytes))
}

/// The compressed encoding of the base point multiplied by `scalar`.
pub uninterp spec fn ed25519_base_multiple(scalar: nat) -> Seq<u8>;

/// The compressed encoding of the sum of the two points that `a` and `b`
/// encode.
pub uninterp spec fn ed25519_sum(a: Seq<u8>, b: Seq<u8>) -> Seq<u8>;

/// Calls `Scalar::from_bytes_mod_order` of curve25519-dalek, which reads the
/// bytes as a number, least significant byte first, and reduces it modulo
/// the group order.
#[verifier::external_body]
fn scalar_reduce(bytes: &[u8; 32]) -> (reduced: [u8; 32])
    ensures
        le_nat(reduced@) == le_nat(bytes@) % group_order(),
{
    curve25519_dalek::scalar::Scalar::from_bytes_mod_order(*bytes).to_bytes()
}

/// Calls the addition of two `Scalar`s of curve25519-dalek, which adds
/// modulo the group order.
#[verifier::external_body]
fn scalar_sum(a: &[u8; 32], b: &[u8; 32]) -> (sum: [u8; 32])
    requires
        le_nat(a@) < group_order(),
        le_nat(b@) < group_order(),
    ensures
        le_nat(sum@) == (le_nat(a@) + le_nat(b@)) % group_order(),
{
    let a = curve25519_dalek::scalar::Scalar::from_bytes_mod_order(*a);
    let b = curve25519_dalek::scalar::Scalar::from_bytes_mod_order(*b);
    (a + b).to_bytes()
}

/// Calls `CompressedEdwardsY::decompress` of curve25519-dalek and says
/// whether the bytes decode. They do where their low 255 bits are, in the
/// field, the y-coordinate of a point; the highest bit only picks the sign
/// of the x-coordinate.
#[verifier::external_body]
fn point_decodes(bytes: &[u8; 32]) -> (ok: bool)
    ensures
        ok == ed25519_point(bytes@),
{
    CompressedEdwardsY(*bytes).decompress().is_some()
}

/// Calls `EdwardsPoint::mul_base` of curve25519-dalek and compresses the
/// point, whose encoding decodes again.
#[verifier::external_body]
fn base_multiple(scalar: &[u8; 32]) -> (point: [u8; 32])
    requires
        le_nat(scalar@) < group_order(),
    ensures
        point@ == ed25519_base_multiple(le_nat(scalar@)),
        ed25519_point(point@),
{
    let scalar = curve25519_dalek::scalar::Scalar::from_bytes_mod_order(*scalar);
    EdwardsPoint::mul_base(&scalar).compress().to_bytes()
}

/// Calls the addition of two `EdwardsPoint`s of curve25519-dalek on the
/// points that the bytes decode to, and compresses the sum, whose encoding
/// decodes again.
#[verifier::external_body]
fn point_sum(a: &[u8; 32], b: &[u8; 32]) -> (sum: [u8; 32])
    requires
        ed25519_point(a@),
        ed25519_point(b@),
    ensures
        sum@ == ed25519_sum(a@, b@),
        ed25519_point(sum@),
{
    let a = CompressedEdwardsY(*a).decompress().unwrap();
    let b = CompressedEdwardsY(*b).decompress().unwrap();
    (a + b).compress().to_bytes()
}

/// A scalar modulo the group order, held in its 32 bytes with the least
/// significant first.
#[derive(Debug, Clone, Copy)]
pub struct Scalar {
    bytes: [u8; 32],
}

impl View for Scalar {
    type V = nat;

    closed spec fn view(&self) -> nat {
        le_nat(self.bytes@)
    }
}

impl Scalar {
    #[verifier::type_invariant]
    spec fn inv(self) -> bool {
        le_nat(self.bytes@) < group_order()
    }

    /// The number that `bytes` spell, least significant byte first, reduced
    /// modulo the group order.
    pub fn from_bytes_mod_order(bytes: [u8; 32]) -> (scalar: Scalar)
        ensures
            scalar@ == le_nat(bytes@) % group_order(),
    {
        Scalar { bytes: scalar_reduce(&bytes) }
    }

    /// The scalar's 32 bytes, least significant first.
    pub fn to_bytes(&self) -> (bytes: [u8; 32])
        ensures
            le_nat(bytes@) == self@,
            self@ < group_order(),
    {
        proof {
            use_type_invariant(self);
        }
        self.bytes
    }

    /// The sum modulo the group order.
    pub fn add(&self, other: &Scalar) -> (sum: Scalar)
        ensures
            sum@ == (self@ + other@) % group_order(),
    {
        proof {
            use_type_invariant(self);
            use_type_invariant(other);
        }
        Scalar { bytes: scalar_sum(&self.bytes, &other.bytes) }
    }
}

/// A private key: a spend key, a view key, or a share of either.
#[derive(Debug, Clone, Copy)]
pub struct PrivateKey {
    pub scalar: Scalar,
}

impl View for PrivateKey {
    type V = nat;

    open spec fn view(&self) -> nat {
        self.scalar@
    }
}

impl PrivateKey {
    pub fn from_scalar(scalar: Scalar) -> (key: PrivateKey)
        ensures
            key@ == scalar@,
    {
        PrivateKey { scalar }
    }

    /// The key that the sum of the two scalars makes: two shares give the
    /// key that they are shares of.
    pub fn add(&self, other: &PrivateKey) -> (sum: PrivateKey)
        ensures
            sum@ == (self@ + other@) % group_order(),
    {
        PrivateKey { scalar: self.scalar.add(&other.scalar) }
    }
}

/// A point of the curve in its compressed encoding.
#[derive(Debug, Clone, Copy)]
pub struct PublicKey {
    point: [u8; 32],
}

impl View for PublicKey {
    type V = Seq<u8>;

    closed spec fn view(&self) -> Seq<u8> {
        self.point@
    }
}

impl PublicKey {
    #[verifier::type_invariant]
    spec fn inv(self) -> bool {
        ed25519_point(self.point@)
    }

    /// The key that `bytes` encode, if they encode a point.
    pub fn from_bytes(bytes: [u8; 32]) -> (key: Option<PublicKey>)
        ensures
            key is Some <==> ed25519_point(bytes@),
            key matches Some(k) ==> k@ == bytes@,
    {
        if point_decodes(&bytes) {
            Some(PublicKey { point: bytes })
        } else {
            None
        }
    }

    /// The key's compressed encoding, which always decodes.
    pub fn to_bytes(&self) -> (bytes: [u8; 32])
        ensures
            bytes@ == self@,
            ed25519_point(self@),
    {
        proof {
            use_type_invariant(self);
        }
        self.point
    }

    /// The public key that belongs to `key`: the base point multiplied by it.
    pub fn from_private_key(key: &PrivateKey) -> (public: PublicKey)
        ensures
            public@ == ed25519_base_multiple(key@),
    {
        let bytes = key.scalar.to_bytes();
        PublicKey { point: base_multiple(&bytes) }
    }

    /// The sum of the two points: two shares of a public key give the key.
    pub fn add(&self, other: &PublicKey) -> (sum: PublicKey)
        ensures
            sum@ == ed25519_sum(self@, other@),
    {
        proof {
            use_type_invariant(self);
            use_type_invariant(other);
        }
        PublicKey { point: point_sum(&self.point, &other.point) }
    }
}

/// The private key with which the shared output is found on the chain.
#[derive(Debug, Clone, Copy)]
pub struct PrivateViewKey(pub PrivateKey);

impl View for PrivateViewKey {
    type V = nat;

    open spec fn view(&self) -> nat {
        self.0@
    }
}

impl PrivateViewKey {
    /// The public view key.
    pub fn public(&self) -> (public: PublicKey)
        ensures
            public@ == ed25519_base_multiple(self@),
    {
        PublicKey::from_private_key(&self.0)
    }
}

/// An amount of monero in piconero.
#[derive(Debug, Clone, Copy, PartialEq, Eq, Structural)]
pub struct Amount(pub u64);

/// What shows that a transfer was made: the hash of the transaction, and
/// the key with which its payment can be checked.
#[derive(Debug, Clone, Copy)]
pub struct TransferProof {
    pub tx_hash: [u8; 32],
    pub tx_key: PrivateKey,
}

/// The Monero private key that a scalar of secp256k1 stands for: the same
/// number, reduced modulo the order of the Ed25519 group. The scalar's bytes
/// are turned round, since secp256k1 writes the most significant byte first
/// and Ed25519 the least significant.
pub fn private_key_from_secp256k1_scalar(scalar: bitcoin::Scalar) -> (key: PrivateKey)
    ensures
        key@ == be_nat(scalar@) % group_order(),
{
    let bytes = scalar.to_bytes();
    proof {
        lemma_reverse_swaps_byte_order(bytes@);
    }
    PrivateKey::from_scalar(Scalar::from_bytes_mod_order(reversed(&bytes)))
}

} // verus!
