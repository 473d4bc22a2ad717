use vstd::prelude::*;

use ed25519_dalek::Signer as DalekSigner;
use ed25519_dalek::Verifier as DalekVerifier;
use k256::ecdsa::signature::Signer as EcdsaSigner;
use k256::ecdsa::signature::Verifier as EcdsaVerifier;

verus! {

/// The signature algorithms a key can be tagged with.
#[derive(Clone, Copy, Debug, PartialEq, Eq, Structural)]
pub enum KeyAlgorithm {
    Ed25519,
    Secp256k1,
}

// Names for what the outside cryptography computes. Each is a pure function
// of its arguments: the schemes below sign deterministically (RFC 8032 for
// Ed25519, RFC 6979 for ECDSA), and key derivation and verification are
// deterministic as well.
/// The signature bytes `ed25519_dalek::SigningKey::sign` produces.
pub uninterp spec fn ed25519_signature_of(key: Seq<u8>, msg: Seq<u8>) -> Seq<u8>;

/// The public key bytes `ed25519_dalek::SigningKey::verifying_key` derives.
pub uninterp spec fn ed25519_public_key_of(key: Seq<u8>) -> Seq<u8>;

/// Whether `ed25519_dalek::VerifyingKey::from_bytes` accepts these bytes.
pub uninterp spec fn ed25519_point_ok(vk: Seq<u8>) -> bool;

/// Whether `ed25519_dalek::VerifyingKey::verify` accepts the signature.
pub uninterp spec fn ed25519_accepts(vk: Seq<u8>, msg: Seq<u8>, sig: Seq<u8>) -> bool;

/// Whether `k256::ecdsa::SigningKey::from_slice` accepts these bytes.
pub uninterp spec fn secp256k1_scalar_ok(key: Seq<u8>) -> bool;

/// The signature bytes `k256::ecdsa::SigningKey::sign` produces.
pub uninterp spec fn secp256k1_signature_of(key: Seq<u8>, msg: Seq<u8>) -> Seq<u8>;

/// The SEC1 bytes of the key `k256::ecdsa::SigningKey::verifying_key` derives.
pub uninterp spec fn secp256k1_public_key_of(key: Seq<u8>) -> Seq<u8>;

/// Whether `k256::ecdsa::VerifyingKey::from_sec1_bytes` accepts these bytes.
pub uninterp spec fn secp256k1_point_ok(vk: Seq<u8>) -> bool;

/// Whether `k256::ecdsa::Signature::from_slice` accepts these bytes.
pub uninterp spec fn secp256k1_sig_shape_ok(sig: Seq<u8>) -> bool;

/// Whether `k256::ecdsa::VerifyingKey::verify` accepts the signature.
pub uninterp spec fn secp256k1_accepts(vk: Seq<u8>, msg: Seq<u8>, sig: Seq<u8>) -> bool;

/// Whether these bytes are a usable signing key for the algorithm.
pub open spec fn spec_signing_key_ok(alg: KeyAlgorithm, key: Seq<u8>) -> bool {
    match alg {
        KeyAlgorithm::Ed25519 => key.len() == 32,
        KeyAlgorithm::Secp256k1 => secp256k1_scalar_ok(key),
    }
}

/// Whether these bytes are a usable verifying key for the algorithm.
pub open spec fn spec_verifying_key_ok(alg: KeyAlgorithm, vk: Seq<u8>) -> bool {
    match alg {
        KeyAlgorithm::Ed25519 => vk.len() == 32 && ed25519_point_ok(vk),
        KeyAlgorithm::Secp256k1 => secp256k1_point_ok(vk),
    }
}

/// Whether these bytes have the shape of a signature of the algorithm.
pub open spec fn spec_signature_shape_ok(alg: KeyAlgorithm, sig: Seq<u8>) -> bool {
    match alg {
        KeyAlgorithm::Ed25519 => sig.len() == 64,
        KeyAlgorithm::Secp256k1 => secp256k1_sig_shape_ok(sig),
    }
}

/// The signature the algorithm produces for this key and message.
pub open spec fn spec_signature_of(alg: KeyAlgorithm, key: Seq<u8>, msg: Seq<u8>) -> Seq<u8> {
    match alg {
        KeyAlgorithm::Ed25519 => ed25519_signature_of(key, msg),
        KeyAlgorithm::Secp256k1 => secp256k1_signature_of(key, msg),
    }
}

/// The verifying key derived from this signing key.
pub open spec fn spec_public_key_of(alg: KeyAlgorithm, key: Seq<u8>) -> Seq<u8> {
    match alg {
        KeyAlgorithm::Ed25519 => ed25519_public_key_of(key),
        KeyAlgorithm::Secp256k1 => secp256k1_public_key_of(key),
    }
}

/// Whether the algorithm's verifier accepts `sig` for `msg` under `vk`.
pub open spec fn spec_verifies(alg: KeyAlgorithm, vk: Seq<u8>, msg: Seq<u8>, sig: Seq<u8>) -> bool {
    match alg {
        KeyAlgorithm::Ed25519 => ed25519_accepts(vk, msg, sig),
        KeyAlgorithm::Secp256k1 => secp256k1_accepts(vk, msg, sig),
    }
}

/// Relies on `k256::ecdsa::SigningKey::from_slice`: accepts exactly the byte
/// strings encoding a nonzero scalar below the curve order; deterministic in
/// its input.
#[verifier::external_body]
fn secp256k1_key_check(key: &[u8]) -> (r: bool)
    ensures
        r == secp256k1_scalar_ok(key@),
{
    k256::ecdsa::SigningKey::from_slice(key).is_ok()
}

/// Relies on `ed25519_dalek::SigningKey::sign` (RFC 8032): deterministic in
/// key and message; the signature is 64 bytes and verifies under the key's
/// derived public key.
#[verifier::external_body]
fn ed25519_sign(key: &[u8], msg: &[u8]) -> (r: Vec<u8>)
    requires
        key@.len() == 32,
    ensures
        r@ == ed25519_signature_of(key@, msg@),
        r@.len() == 64,
        ed25519_accepts(ed25519_public_key_of(key@), msg@, r@),
{
    let arr: [u8; 32] = key.try_into().unwrap();
    let sk = ed25519_dalek::SigningKey::from_bytes(&arr);
    sk.sign(msg).to_bytes().to_vec()
}

/// Relies on `ed25519_dalek::SigningKey::verifying_key`: deterministic; the
/// derived key is 32 bytes and is a valid curve point, so
/// `VerifyingKey::from_bytes` accepts it.
#[verifier::external_body]
fn ed25519_public_key(key: &[u8]) -> (r: Vec<u8>)
    requires
        key@.len() == 32,
    ensures
        r@ == ed25519_public_key_of(key@),
        r@.len() == 32,
        ed25519_point_ok(r@),
{
    let arr: [u8; 32] = key.try_into().unwrap();
    let sk = ed25519_dalek::SigningKey::from_bytes(&arr);
    sk.verifying_key().to_bytes().to_vec()
}

/// Relies on `ed25519_dalek::VerifyingKey::verify`: deterministic in key,
/// message and signature.
#[verifier::external_body]
fn ed25519_verify(vk: &[u8], msg: &[u8], sig: &[u8]) -> (r: bool)
    requires
        vk@.len() == 32,
        ed25519_point_ok(vk@),
        sig@.len() == 64,
    ensures
        r == ed25519_accepts(vk@, msg@, sig@),
{
    let arr: [u8; 32] = vk.try_into().unwrap();
    let key = ed25519_dalek::VerifyingKey::from_bytes(&arr).unwrap();
    let s = ed25519_dalek::Signature::from_slice(sig).unwrap();
    key.verify(msg, &s).is_ok()
}

/// Relies on `ed25519_dalek::VerifyingKey::from_bytes`: accepts exactly the
/// 32-byte strings that decompress to a curve point; deterministic in its
/// input.
#[verifier::external_body]
fn ed25519_point_check(vk: &[u8]) -> (r: bool)
    requires
        vk@.len() == 32,
    ensures
        r == ed25519_point_ok(vk@),
{
    let arr: [u8; 32] = vk.try_into().unwrap();
    ed25519_dalek::VerifyingKey::from_bytes(&arr).is_ok()
}

/// Relies on `k256::ecdsa::VerifyingKey::from_sec1_bytes`: accepts exactly
/// the SEC1 point encodings; deterministic in its input.
#[verifier::external_body]
fn secp256k1_point_check(vk: &[u8]) -> (r: bool)
    ensures
        r == secp256k1_point_ok(vk@),
{
    k256::ecdsa::VerifyingKey::from_sec1_bytes(vk).is_ok()
}

/// Relies on `k256::ecdsa::SigningKey::sign` (RFC 6979): deterministic in key
/// and message; the fixed-size signature parses back with
/// `Signature::from_slice` and verifies under the key's derived public key.
#[verifier::external_body]
fn secp256k1_sign(key: &[u8], msg: &[u8]) -> (r: Vec<u8>)
    requires
        secp256k1_scalar_ok(key@),
    ensures
        r@ == secp256k1_signature_of(key@, msg@),
        secp256k1_sig_shape_ok(r@),
        secp256k1_accepts(secp256k1_public_key_of(key@), msg@, r@),
{
    let sk = k256::ecdsa::SigningKey::from_slice(key).unwrap();
    let sig: k256::ecdsa::Signature = sk.sign(msg);
    sig.to_bytes().to_vec()
}

/// Relies on `k256::ecdsa::SigningKey::verifying_key` and SEC1 compressed
/// point encoding: deterministic; the encoding is accepted back by
/// `VerifyingKey::from_sec1_bytes`.
#[verifier::external_body]
fn secp256k1_public_key(key: &[u8]) -> (r: Vec<u8>)
    requires
        secp256k1_scalar_ok(key@),
    ensures
        r@ == secp256k1_public_key_of(key@),
        secp256k1_point_ok(r@),
{
    let sk = k256::ecdsa::SigningKey::from_slice(key).unwrap();
    sk.verifying_key().to_sec1_bytes().to_vec()
}

/// Relies on `k256::ecdsa::Signature::from_slice`: accepts exactly 64-byte
/// strings whose halves encode nonzero scalars below the curve order;
/// deterministic in its input.
#[verifier::external_body]
fn secp256k1_sig_check(sig: &[u8]) -> (r: bool)
    ensures
        r == secp256k1_sig_shape_ok(sig@),
{
    k256::ecdsa::Signature::from_slice(sig).is_ok()
}

/// Relies on `k256::ecdsa::VerifyingKey::verify`: deterministic in key,
/// message and signature.
#[verifier::external_body]
fn secp256k1_verify(vk: &[u8], msg: &[u8], sig: &[u8]) -> (r: bool)
    requires
        secp256k1_point_ok(vk@),
        secp256k1_sig_shape_ok(sig@),
    ensures
        r == secp256k1_accepts(vk@, msg@, sig@),
{
    let key = k256::ecdsa::VerifyingKey::from_sec1_bytes(vk).unwrap();
    let s = k256::ecdsa::Signature::from_slice(sig).unwrap();
    key.verify(msg, &s).is_ok()
}

/// An algorithm-tagged signing key, held as its raw byte encoding.
#[derive(Clone, Debug)]
pub struct SigningKey {
    pub algorithm: KeyAlgorithm,
    pub key_bytes: Vec<u8>,
}

/// An algorithm-tagged verifying key, held as its raw byte encoding.
#[derive(Clone, Debug)]
pub struct VerifyingKey {
    pub algorithm: KeyAlgorithm,
    pub key_bytes: Vec<u8>,
}

impl SigningKey {
    /// A signing key is well-formed when the algorithm's backend accepts its
    /// bytes.
    pub open spec fn wf(self) -> bool {
        spec_signing_key_ok(self.algorithm, self.key_bytes@)
    }

    /// Build a signing key from an algorithm tag and raw key bytes; `None`
    /// when the algorithm rejects the bytes.
    pub fn from_algorithm_and_bytes(algorithm: KeyAlgorithm, key_bytes: Vec<u8>) -> (r: Option<
        SigningKey,
    >)
        ensures
            r is Some <==> spec_signing_key_ok(algorithm, key_bytes@),
            r matches Some(k) ==> k == (SigningKey { algorithm, key_bytes }),
    {
        let ok = match algorithm {
            KeyAlgorithm::Ed25519 => key_bytes.len() == 32,
            KeyAlgorithm::Secp256k1 => secp256k1_key_check(key_bytes.as_slice()),
        };
        if ok {
            Some(SigningKey { algorithm, key_bytes })
        } else {
            None
        }
    }

    /// Derive the verifying key of this signing key.
    pub fn verifying_key(&self) -> (r: VerifyingKey)
        requires
            self.wf(),
        ensures
            r.algorithm == self.algorithm,
            r.key_bytes@ == spec_public_key_of(self.algorithm, self.key_bytes@),
            r.wf(),
    {
        let key_bytes = match self.algorithm {
            KeyAlgorithm::Ed25519 => ed25519_public_key(self.key_bytes.as_slice()),
            KeyAlgorithm::Secp256k1 => secp256k1_public_key(self.key_bytes.as_slice()),
        };
        VerifyingKey { algorithm: self.algorithm, key_bytes }
    }

    /// Sign a message; the result is the algorithm's deterministic signature
    /// for this key, well-shaped, and it verifies under the derived
    /// verifying key.
    pub fn sign(&self, msg: &Vec<u8>) -> (r: Vec<u8>)
        requires
            self.wf(),
        ensures
            r@ == spec_signature_of(self.algorithm, self.key_bytes@, msg@),
            spec_signature_shape_ok(self.algorithm, r@),
            spec_verifies(
                self.algorithm,
                spec_public_key_of(self.algorithm, self.key_bytes@),
                msg@,
                r@,
            ),
    {
        match self.algorithm {
            KeyAlgorithm::Ed25519 => ed25519_sign(self.key_bytes.as_slice(), msg.as_slice()),
            KeyAlgorithm::Secp256k1 => secp256k1_sign(self.key_bytes.as_slice(), msg.as_slice()),
        }
    }
}

impl VerifyingKey {
    /// A verifying key is well-formed when the algorithm's backend accepts
    /// its bytes.
    pub open spec fn wf(self) -> bool {
        spec_verifying_key_ok(self.algorithm, self.key_bytes@)
    }

    /// Build a verifying key from an algorithm tag and raw key bytes; `None`
    /// when the algorithm rejects the bytes.
    pub fn from_algorithm_and_bytes(algorithm: KeyAlgorithm, key_bytes: Vec<u8>) -> (r: Option<
        VerifyingKey,
    >)
        ensures
            r is Some <==> spec_verifying_key_ok(algorithm, key_bytes@),
            r matches Some(k) ==> k == (VerifyingKey { algorithm, key_bytes }) && k.wf(),
    {
        let ok = match algorithm {
            KeyAlgorithm::Ed25519 => key_bytes.len() == 32 && ed25519_point_check(
                key_bytes.as_slice(),
            ),
            KeyAlgorithm::Secp256k1 => secp256k1_point_check(key_bytes.as_slice()),
        };
        if ok {
            Some(VerifyingKey { algorithm, key_bytes })
        } else {
            None
        }
    }

    /// Whether these signature bytes have the shape of a signature of this
    /// key's algorithm.
    pub fn signature_shape_ok(&self, sig: &Vec<u8>) -> (r: bool)
        ensures
            r == spec_signature_shape_ok(self.algorithm, sig@),
    {
        match self.algorithm {
            KeyAlgorithm::Ed25519 => sig.len() == 64,
            KeyAlgorithm::Secp256k1 => secp256k1_sig_check(sig.as_slice()),
        }
    }

    /// Check a well-shaped signature over a message.
    pub fn verify_bytes(&self, msg: &Vec<u8>, sig: &Vec<u8>) -> (r: bool)
        requires
            self.wf(),
            spec_signature_shape_ok(self.algorithm, sig@),
        ensures
            r == spec_verifies(self.algorithm, self.key_bytes@, msg@, sig@),
    {
        match self.algorithm {
            KeyAlgorithm::Ed25519 => ed25519_verify(
                self.key_bytes.as_slice(),
                msg.as_slice(),
                sig.as_slice(),
            ),
            KeyAlgorithm::Secp256k1 => secp256k1_verify(
                self.key_bytes.as_slice(),
                msg.as_slice(),
                sig.as_slice(),
            ),
        }
    }
}

} // verus!
