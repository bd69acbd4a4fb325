//! Keys, signatures and encrypted signatures over secp256k1, held as their
//! canonical byte strings.

use crate::bitcoin::error::Error;
use crate::bytes::be_nat;
use ecdsa_fun::adaptor::{Adaptor, HashTranscript};
use ecdsa_fun::fun::marker::{NonZero, Normal, Public, Secret};
use ecdsa_fun::nonce::Deterministic;
use ecdsa_fun::ECDSA;
use rand_chacha::ChaCha20Rng;
use sha2::Sha256;
use vstd::prelude::*;

verus! {

/// The order of the secp256k1 group.
pub open spec fn secp256k1_order() -> nat {
    0xFFFFFFFF_FFFFFFFF_FFFFFFFF_FFFFFFFE_BAAEDCE6_AF48A03B_BFD25E8C_D0364141nat
}

/// Whether `bytes` spell, most significant byte first, a scalar that can
/// serve as a secret key: 32 bytes, not zero, below the group order.
pub open spec fn is_secret_scalar(bytes: Seq<u8>) -> bool {
    bytes.len() == 32 && 0 < be_nat(bytes) < secp256k1_order()
}

/// The prime of the field over which secp256k1 is defined.
pub open spec fn secp256k1_field_prime() -> nat {
    0xFFFFFFFF_FFFFFFFF_FFFFFFFF_FFFFFFFF_FFFFFFFF_FFFFFFFF_FFFFFFFE_FFFFFC2Fnat
}

/// Whether `(x, y)` is a point of the curve `y^2 = x^3 + 7` over the field.
pub open spec fn lies_on_secp256k1(x: nat, y: nat) -> bool {
    &&& x < secp256k1_field_prime()
    &&& y < secp256k1_field_prime()
    &&& (y * y) % secp256k1_field_prime() == (x * x * x + 7) % secp256k1_field_prime()
}

/// Whether 33 bytes are the compressed encoding of a point of the curve
/// other than the point at infinity: a byte, 2 or 3, that tells which of the
/// two points with an x-coordinate is meant, and the x-coordinate of a
/// point, most significant byte first.
pub open spec fn secp256k1_point(bytes: Seq<u8>) -> bool {
    &&& bytes.len() == 33
    &&& (bytes[0] == 2 || bytes[0] == 3)
    &&& exists|y: nat| lies_on_secp256k1(be_nat(bytes.subrange(1, 33)), y)
}

/// The compressed encoding of the point `secret * G`.
pub uninterp spec fn secp256k1_public_key(secret: Seq<u8>) -> Seq<u8>;

/// The deterministic ECDSA signature of `secret` on `digest`, as the 64 bytes
/// `r || s`.
pub uninterp spec fn ecdsa_signature(secret: Seq<u8>, digest: Seq<u8>) -> Seq<u8>;

/// Whether the 64 bytes `sig` are an ECDSA signature on `digest` that the key
/// `public` accepts.
pub uninterp spec fn ecdsa_verifies(public: Seq<u8>, digest: Seq<u8>, sig: Seq<u8>) -> bool;

/// The deterministic encrypted signature of `secret` on `digest` under the
/// encryption key `encryption_key`, as 162 bytes.
pub uninterp spec fn adaptor_encrypted_signature(
    secret: Seq<u8>,
    encryption_key: Seq<u8>,
    digest: Seq<u8>,
) -> Seq<u8>;

/// Whether the 162 bytes `encsig` are an encrypted signature that, decrypted
/// with the secret key of `encryption_key`, gives a signature on `digest`
/// that the key `verification_key` accepts.
pub uninterp spec fn adaptor_verifies(
    verification_key: Seq<u8>,
    encryption_key: Seq<u8>,
    digest: Seq<u8>,
    encsig: Seq<u8>,
) -> bool;

/// The signature that decrypting `encsig` with `decryption_key` gives, if
/// the 162 bytes are the encoding of an encrypted signature.
pub uninterp spec fn adaptor_decrypted_signature(decryption_key: Seq<u8>, encsig: Seq<u8>) -> Option<
    Seq<u8>,
>;

/// The decryption key that `sig` gives away, if `sig` is a decryption of
/// `encsig` under the key that belongs to `encryption_key`.
pub uninterp spec fn adaptor_recovered_key(
    encryption_key: Seq<u8>,
    sig: Seq<u8>,
    encsig: Seq<u8>,
) -> Option<Seq<u8>>;

/// Calls `Point::from_bytes` of secp256kfun, for a point that is not zero,
/// and says whether the bytes decode. They do where the first is 2 or 3 and
/// the others are an x-coordinate below the field's prime for which
/// `x^3 + 7` has a square root.
#[verifier::external_body]
fn point_decodes(bytes: &[u8; 33]) -> (ok: bool)
    ensures
        ok == secp256k1_point(bytes@),
{
    ecdsa_fun::fun::Point::<Normal, Public, NonZero>::from_bytes(*bytes).is_some()
}

/// Calls `ECDSA::verification_key_for` of ecdsa_fun on the scalar that
/// `Scalar::from_bytes` of secp256kfun decodes. That decoder refuses zero and
/// whatever is not below the group order, and nothing else; the point that
/// comes back is normalized and not zero, so its encoding decodes again.
#[verifier::external_body]
fn derive_public(secret: &[u8; 32]) -> (public: Option<[u8; 33]>)
    ensures
        public is Some <==> is_secret_scalar(secret@),
        public matches Some(p) ==> p@ == secp256k1_public_key(secret@) && secp256k1_point(p@),
{
    let x = ecdsa_fun::fun::Scalar::<Secret, NonZero>::from_bytes(*secret)?;
    Some(ECDSA::verify_only().verification_key_for(&x).to_bytes())
}

/// Calls `ECDSA::sign` of ecdsa_fun with nonces derived from the key and the
/// digest alone, so that the signature is a function of the two. The crate
/// rules out, as computationally unreachable, a nonce that would make it
/// panic.
#[verifier::external_body]
fn ecdsa_sign(secret: &[u8; 32], digest: &[u8; 32]) -> (sig: [u8; 64])
    requires
        is_secret_scalar(secret@),
    ensures
        sig@ == ecdsa_signature(secret@, digest@),
{
    let x = ecdsa_fun::fun::Scalar::<Secret, NonZero>::from_bytes(*secret).unwrap();
    ECDSA::<Deterministic<Sha256>>::default().sign(&x, digest).to_bytes()
}

/// Calls `ECDSA::verify` of ecdsa_fun, without the low-s rule. Bytes that
/// `Signature::from_bytes` does not decode are no signature.
#[verifier::external_body]
fn ecdsa_verify(public: &[u8; 33], digest: &[u8; 32], sig: &[u8; 64]) -> (ok: bool)
    requires
        secp256k1_point(public@),
    ensures
        ok == ecdsa_verifies(public@, digest@, sig@),
{
    let key = ecdsa_fun::fun::Point::<Normal, Public, NonZero>::from_bytes(*public).unwrap();
    match ecdsa_fun::Signature::from_bytes(*sig) {
        Some(sig) => ECDSA::verify_only().verify(&key, digest, &sig),
        None => false,
    }
}

/// Calls `Adaptor::encrypted_sign` of ecdsa_fun with nonces derived from the
/// arguments alone, and encodes the result in the crate's own 162 bytes. The
/// crate rules out, as computationally unreachable, a nonce that would make it
/// panic.
#[verifier::external_body]
fn adaptor_encsign(secret: &[u8; 32], encryption_key: &[u8; 33], digest: &[u8; 32]) -> (encsig:
    [u8; 162])
    requires
        is_secret_scalar(secret@),
        secp256k1_point(encryption_key@),
    ensures
        encsig@ == adaptor_encrypted_signature(secret@, encryption_key@, digest@),
{
    let x = ecdsa_fun::fun::Scalar::<Secret, NonZero>::from_bytes(*secret).unwrap();
    let y = ecdsa_fun::fun::Point::<Normal, Public, NonZero>::from_bytes(*encryption_key).unwrap();
    let adaptor = Adaptor::<HashTranscript<Sha256, ChaCha20Rng>, Deterministic<Sha256>>::default();
    let encsig = adaptor.encrypted_sign(&x, &y, digest);
    let mut out = [0u8; 162];
    ecdsa_fun::fun::bincode::encode_into_slice(
        &encsig,
        &mut out[..],
        ecdsa_fun::fun::bincode::config::legacy(),
    ).unwrap();
    out
}

/// Calls `Adaptor::verify_encrypted_signature` of ecdsa_fun. Bytes that do
/// not decode as an encrypted signature are none.
#[verifier::external_body]
fn adaptor_encverify(
    verification_key: &[u8; 33],
    encryption_key: &[u8; 33],
    digest: &[u8; 32],
    encsig: &[u8; 162],
) -> (ok: bool)
    requires
        secp256k1_point(verification_key@),
        secp256k1_point(encryption_key@),
    ensures
        ok == adaptor_verifies(verification_key@, encryption_key@, digest@, encsig@),
{
    let x = ecdsa_fun::fun::Point::<Normal, Public, NonZero>::from_bytes(*verification_key).unwrap();
    let y = ecdsa_fun::fun::Point::<Normal, Public, NonZero>::from_bytes(*encryption_key).unwrap();
    let decoded = ecdsa_fun::fun::bincode::decode_from_slice(
        &encsig[..],
        ecdsa_fun::fun::bincode::config::legacy(),
    );
    let adaptor = Adaptor::<HashTranscript<Sha256, ChaCha20Rng>, Deterministic<Sha256>>::default();
    match decoded {
        Ok((encsig, _)) => adaptor.verify_encrypted_signature(&x, &y, digest, &encsig),
        Err(_) => false,
    }
}

/// Calls `Adaptor::decrypt_signature` of ecdsa_fun, which gives the
/// signature with the lower of the two values that `s` can have. Bytes that
/// do not decode as an encrypted signature give none.
#[verifier::external_body]
fn adaptor_decsig(decryption_key: &[u8; 32], encsig: &[u8; 162]) -> (sig: Option<[u8; 64]>)
    requires
        is_secret_scalar(decryption_key@),
    ensures
        sig is Some <==> adaptor_decrypted_signature(decryption_key@, encsig@) is Some,
        sig matches Some(s) ==> adaptor_decrypted_signature(decryption_key@, encsig@) == Some(s@),
{
    let y = ecdsa_fun::fun::Scalar::<Secret, NonZero>::from_bytes(*decryption_key).unwrap();
    let (encsig, _): (ecdsa_fun::adaptor::EncryptedSignature, usize) =
        ecdsa_fun::fun::bincode::decode_from_slice(
        &encsig[..],
        ecdsa_fun::fun::bincode::config::legacy(),
    ).ok()?;
    let adaptor = Adaptor::<HashTranscript<Sha256, ChaCha20Rng>, Deterministic<Sha256>>::default();
    Some(adaptor.decrypt_signature(&y, encsig).to_bytes())
}

/// Calls `Adaptor::recover_decryption_key` of ecdsa_fun, without the low-s
/// rule. Bytes that do not decode as a signature or as an encrypted signature
/// give away nothing. A key that comes back is a scalar that is not zero, in
/// its 32 bytes.
#[verifier::external_body]
fn adaptor_recover(encryption_key: &[u8; 33], sig: &[u8; 64], encsig: &[u8; 162]) -> (key: Option<
    [u8; 32],
>)
    requires
        secp256k1_point(encryption_key@),
    ensures
        key is Some <==> adaptor_recovered_key(encryption_key@, sig@, encsig@) is Some,
        key matches Some(k) ==> adaptor_recovered_key(encryption_key@, sig@, encsig@) == Some(k@)
            && is_secret_scalar(k@),
{
    let y = ecdsa_fun::fun::Point::<Normal, Public, NonZero>::from_bytes(*encryption_key).unwrap();
    let sig = ecdsa_fun::Signature::from_bytes(*sig)?;
    let (encsig, _): (ecdsa_fun::adaptor::EncryptedSignature, usize) =
        ecdsa_fun::fun::bincode::decode_from_slice(
        &encsig[..],
        ecdsa_fun::fun::bincode::config::legacy(),
    ).ok()?;
    let adaptor = Adaptor::<HashTranscript<Sha256>, Deterministic<Sha256>>::default();
    adaptor.recover_decryption_key(&y, &sig, &encsig).map(|k| k.to_bytes())
}

/// The 32-byte digest of a transaction that a signature commits to.
#[derive(Debug, Clone, Copy)]
pub struct SigHash {
    pub bytes: [u8; 32],
}

impl View for SigHash {
    type V = Seq<u8>;

    open spec fn view(&self) -> Seq<u8> {
        self.bytes@
    }
}

/// An ECDSA signature as `r || s`, each of 32 bytes with the most significant
/// byte first.
#[derive(Debug, Clone, Copy)]
pub struct Signature {
    pub bytes: [u8; 64],
}

impl View for Signature {
    type V = Seq<u8>;

    open spec fn view(&self) -> Seq<u8> {
        self.bytes@
    }
}

/// An encrypted signature in its 162 bytes.
#[derive(Debug, Clone, Copy)]
pub struct EncryptedSignature {
    pub bytes: [u8; 162],
}

impl View for EncryptedSignature {
    type V = Seq<u8>;

    open spec fn view(&self) -> Seq<u8> {
        self.bytes@
    }
}

/// A scalar of secp256k1 that is not zero, in 32 bytes with the most
/// significant byte first.
#[derive(Debug, Clone, Copy)]
pub struct Scalar {
    bytes: [u8; 32],
}

impl View for Scalar {
    type V = Seq<u8>;

    closed spec fn view(&self) -> Seq<u8> {
        self.bytes@
    }
}

impl Scalar {
    #[verifier::type_invariant]
    spec fn inv(self) -> bool {
        is_secret_scalar(self.bytes@)
    }

    /// The scalar's 32 bytes.
    pub fn to_bytes(&self) -> (bytes: [u8; 32])
        ensures
            bytes@ == self@,
            is_secret_scalar(self@),
    {
        proof {
            use_type_invariant(self);
        }
        self.bytes
    }
}

/// A point of secp256k1 other than the point at infinity, in its compressed
/// encoding.
#[derive(Debug, Clone, Copy)]
pub struct PublicKey {
    bytes: [u8; 33],
}

impl View for PublicKey {
    type V = Seq<u8>;

    closed spec fn view(&self) -> Seq<u8> {
        self.bytes@
    }
}

impl PublicKey {
    #[verifier::type_invariant]
    spec fn inv(self) -> bool {
        secp256k1_point(self.bytes@)
    }

    /// The key that `bytes` encode, if they encode one.
    pub fn from_bytes(bytes: [u8; 33]) -> (key: Option<PublicKey>)
        ensures
            key is Some <==> secp256k1_point(bytes@),
            key matches Some(k) ==> k@ == bytes@,
    {
        if point_decodes(&bytes) {
            Some(PublicKey { bytes })
        } else {
            None
        }
    }

    /// The key's compressed encoding, which always decodes.
    pub fn to_bytes(&self) -> (bytes: [u8; 33])
        ensures
            bytes@ == self@,
            secp256k1_point(self@),
    {
        proof {
            use_type_invariant(self);
        }
        self.bytes
    }

    /// Whether the two keys are the same point.
    pub fn same_as(&self, other: &PublicKey) -> (same: bool)
        ensures
            same == (self@ == other@),
    {
        let mut i: usize = 0;
        while i < 33
            invariant
                i <= 33,
                forall|j: int| 0 <= j < i ==> self.bytes@[j] == other.bytes@[j],
            decreases 33 - i,
        {
            if self.bytes[i] != other.bytes[i] {
                return false;
            }
            i += 1;
        }
        assert(self.bytes@ =~= other.bytes@);
        true
    }
}

/// A secret key together with the public key that belongs to it.
#[derive(Debug, Clone, Copy)]
pub struct SecretKey {
    inner: [u8; 32],
    public: [u8; 33],
}

impl View for SecretKey {
    type V = Seq<u8>;

    /// The secret scalar's 32 bytes.
    closed spec fn view(&self) -> Seq<u8> {
        self.inner@
    }
}

impl SecretKey {
    #[verifier::type_invariant]
    spec fn inv(self) -> bool {
        &&& is_secret_scalar(self.inner@)
        &&& secp256k1_point(self.public@)
        &&& self.public@ == secp256k1_public_key(self.inner@)
    }

    /// The key whose scalar `bytes` spell, unless they spell zero or a number
    /// that is not below the group order.
    pub fn from_bytes(bytes: [u8; 32]) -> (key: Option<SecretKey>)
        ensures
            key is Some <==> is_secret_scalar(bytes@),
            key matches Some(k) ==> k@ == bytes@,
    {
        match derive_public(&bytes) {
            Some(public) => Some(SecretKey { inner: bytes, public }),
            None => None,
        }
    }

    /// The public key `self * G`.
    pub fn public(&self) -> (key: PublicKey)
        ensures
            key@ == secp256k1_public_key(self@),
    {
        proof {
            use_type_invariant(self);
        }
        PublicKey { bytes: self.public }
    }

    /// The secret scalar's 32 bytes, most significant first.
    pub fn to_bytes(&self) -> (bytes: [u8; 32])
        ensures
            bytes@ == self@,
            is_secret_scalar(self@),
    {
        proof {
            use_type_invariant(self);
        }
        self.inner
    }

    /// The secret scalar.
    pub fn to_scalar(&self) -> (scalar: Scalar)
        ensures
            scalar@ == self@,
    {
        proof {
            use_type_invariant(self);
        }
        Scalar { bytes: self.inner }
    }

    /// Signs `digest`. The same key and digest give the same signature.
    pub fn sign(&self, digest: SigHash) -> (sig: Signature)
        ensures
            sig@ == ecdsa_signature(self@, digest@),
    {
        proof {
            use_type_invariant(self);
        }
        Signature { bytes: ecdsa_sign(&self.inner, &digest.bytes) }
    }

    /// Decrypts an encrypted signature that was made under this key's public
    /// key. Whoever holds the encrypted signature and sees the result learns
    /// this key.
    pub fn decsig(&self, encsig: &EncryptedSignature) -> (sig: Result<Signature, Error>)
        ensures
            match adaptor_decrypted_signature(self@, encsig@) {
                Some(s) => sig is Ok && sig->Ok_0@ == s,
                None => sig == Err::<Signature, Error>(Error::InvalidEncryptedSignature),
            },
    {
        proof {
            use_type_invariant(self);
        }
        match adaptor_decsig(&self.inner, &encsig.bytes) {
            Some(bytes) => Ok(Signature { bytes }),
            None => Err(Error::InvalidEncryptedSignature),
        }
    }

    /// Signs `digest` and encrypts the signature under `encryption_key`:
    /// whoever later sees the decrypted signature learns the secret key of
    /// `encryption_key`. The same arguments give the same encrypted signature.
    pub fn encsign(&self, encryption_key: PublicKey, digest: SigHash) -> (encsig:
        EncryptedSignature)
        ensures
            encsig@ == adaptor_encrypted_signature(self@, encryption_key@, digest@),
    {
        proof {
            use_type_invariant(self);
            use_type_invariant(&encryption_key);
        }
        EncryptedSignature { bytes: adaptor_encsign(&self.inner, &encryption_key.bytes, &digest.bytes) }
    }
}

/// Checks `sig` on `digest` against `verification_key`.
pub fn verify_sig(verification_key: &PublicKey, digest: &SigHash, sig: &Signature) -> (checked:
    Result<(), Error>)
    ensures
        checked is Ok <==> ecdsa_verifies(verification_key@, digest@, sig@),
        checked is Err ==> checked == Err::<(), Error>(Error::InvalidSignature),
{
    proof {
        use_type_invariant(verification_key);
    }
    if ecdsa_verify(&verification_key.bytes, &digest.bytes, &sig.bytes) {
        Ok(())
    } else {
        Err(Error::InvalidSignature)
    }
}

/// Checks, without the key that decrypts it, that `encsig` holds a signature
/// of `verification_key` on `digest`, encrypted under `encryption_key`.
pub fn verify_encsig(
    verification_key: PublicKey,
    encryption_key: PublicKey,
    digest: &SigHash,
    encsig: &EncryptedSignature,
) -> (checked: Result<(), Error>)
    ensures
        checked is Ok <==> adaptor_verifies(verification_key@, encryption_key@, digest@, encsig@),
        checked is Err ==> checked == Err::<(), Error>(Error::InvalidEncryptedSignature),
{
    proof {
        use_type_invariant(&verification_key);
        use_type_invariant(&encryption_key);
    }
    if adaptor_encverify(
        &verification_key.bytes,
        &encryption_key.bytes,
        &digest.bytes,
        &encsig.bytes,
    ) {
        Ok(())
    } else {
        Err(Error::InvalidEncryptedSignature)
    }
}

/// The secret key of the scalar that a signature gave away, or the failure
/// where it gave none away.
pub open spec fn recovered(key: Option<Seq<u8>>, result: Result<SecretKey, Error>) -> bool {
    match key {
        Some(k) => result is Ok && result->Ok_0@ == k,
        None => result == Err::<SecretKey, Error>(Error::RecoveryFailed),
    }
}

/// The secret key of `encryption_key`, from an encrypted signature made under
/// that key and the signature that was decrypted from it.
pub fn recover(encryption_key: PublicKey, sig: Signature, encsig: EncryptedSignature) -> (key:
    Result<SecretKey, Error>)
    ensures
        recovered(adaptor_recovered_key(encryption_key@, sig@, encsig@), key),
{
    proof {
        use_type_invariant(&encryption_key);
    }
    secret_key_from_recovery(adaptor_recover(&encryption_key.bytes, &sig.bytes, &encsig.bytes))
}

/// Makes a secret key of the scalar that a recovery gave. A recovery that
/// gave none has failed, and so has one that gave what is no secret key.
pub fn secret_key_from_recovery(scalar: Option<[u8; 32]>) -> (key: Result<SecretKey, Error>)
    ensures
        match scalar {
            Some(k) if is_secret_scalar(k@) => key is Ok && key->Ok_0@ == k@,
            _ => key == Err::<SecretKey, Error>(Error::RecoveryFailed),
        },
{
    match scalar {
        Some(k) => match SecretKey::from_bytes(k) {
            Some(key) => Ok(key),
            None => Err(Error::RecoveryFailed),
        },
        None => Err(Error::RecoveryFailed),
    }
}

} // verus!
