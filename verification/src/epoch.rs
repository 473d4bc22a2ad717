use vstd::prelude::*;

use crate::digest::Digest;
use crate::encoding::lemma_u64_le_bytes_injective;
use crate::encoding::push_bytes;
use crate::encoding::push_u64_le;
use crate::encoding::u64_le_bytes;
use crate::hex::decode_hex;
use crate::hex::encode_hex;
use crate::hex::hex_bytes_of;
use crate::hex::hex_decode_bytes;
use crate::hex::hex_digits_to_string;
use crate::hex::is_hex_bytes;
use crate::hex::lemma_hex_bytes_of_is_hex;
use crate::hex::lemma_hex_roundtrip;
use crate::keys::spec_public_key_of;
use crate::keys::spec_signature_of;
use crate::keys::spec_signature_shape_ok;
use crate::keys::spec_verifies;
use crate::keys::SigningKey;
use crate::keys::VerifyingKey;
use vstd::utf8::encode_utf8;

verus! {

/// An opaque, serialized zero-knowledge proof attached to an epoch.
#[derive(Clone, Debug)]
pub struct Proof {
    pub bytes: Vec<u8>,
}

/// Why signing or verifying a `FinalizedEpoch` failed.
#[derive(Clone, Copy, Debug, PartialEq, Eq, Structural)]
pub enum EpochError {
    /// Canonical encoding of the record failed. The canonical codec of this
    /// library is total, so `insert_signature` reports it only for codecs
    /// that can fail; it is part of the record's error taxonomy.
    EncodingError,
    /// Verification was attempted on an unsigned record.
    MissingSignature,
    /// The stored signature is not valid hex.
    SignatureDecodeError,
    /// The decoded bytes are not a signature of the key's algorithm.
    AlgorithmOrLengthMismatch,
    /// The signature does not verify against the message and key.
    CryptographicMismatch,
}

/// The finalized epoch record posted to the data-availability layer: a
/// commitment transition, a validity proof, and an optional signature over
/// the canonical encoding of everything else.
#[derive(Clone, Debug)]
pub struct FinalizedEpoch {
    pub height: u64,
    pub prev_commitment: Digest,
    pub current_commitment: Digest,
    pub proof: Proof,
    pub signature: Option<String>,
}

/// The mathematical value of a `FinalizedEpoch`: plain sequences for every
/// byte-valued field.
pub struct EpochModel {
    pub height: u64,
    pub prev_commitment: Seq<u8>,
    pub current_commitment: Seq<u8>,
    pub proof: Seq<u8>,
    pub signature: Option<Seq<char>>,
}

impl View for FinalizedEpoch {
    type V = EpochModel;

    open spec fn view(&self) -> EpochModel {
        EpochModel {
            height: self.height,
            prev_commitment: self.prev_commitment.bytes(),
            current_commitment: self.current_commitment.bytes(),
            proof: self.proof.bytes@,
            signature: match self.signature {
                Some(s) => Some(s@),
                None => None,
            },
        }
    }
}

/// The canonical signing payload of an epoch: height, both commitments, the
/// length-prefixed proof bytes, and the cleared-signature marker, in that
/// order. The signature field never contributes, so signing and verifying
/// reconstruct the same unsigned view bit for bit.
pub open spec fn spec_signing_payload(e: FinalizedEpoch) -> Seq<u8> {
    u64_le_bytes(e.height) + e.prev_commitment.bytes() + e.current_commitment.bytes() + u64_le_bytes(
        e.proof.bytes@.len() as u64,
    ) + e.proof.bytes@ + seq![0u8]
}

/// The outcome verification must have for this epoch under this key.
pub open spec fn spec_verify_outcome(e: FinalizedEpoch, vk: VerifyingKey) -> Result<
    (),
    EpochError,
> {
    if e.signature is None {
        Err(EpochError::MissingSignature)
    } else {
        let digits = encode_utf8(e.signature.unwrap()@);
        if !is_hex_bytes(digits) {
            Err(EpochError::SignatureDecodeError)
        } else {
            let sig = hex_decode_bytes(digits);
            if !spec_signature_shape_ok(vk.algorithm, sig) {
                Err(EpochError::AlgorithmOrLengthMismatch)
            } else if !spec_verifies(vk.algorithm, vk.key_bytes@, spec_signing_payload(e), sig) {
                Err(EpochError::CryptographicMismatch)
            } else {
                Ok(())
            }
        }
    }
}

impl FinalizedEpoch {
    /// The canonical byte encoding of this epoch with the signature cleared;
    /// the message that is signed and verified.
    pub fn signing_payload(&self) -> (r: Vec<u8>)
        ensures
            r@ == spec_signing_payload(*self),
    {
        let mut out: Vec<u8> = Vec::new();
        push_u64_le(&mut out, self.height);
        push_bytes(&mut out, self.prev_commitment.0.as_slice());
        push_bytes(&mut out, self.current_commitment.0.as_slice());
        push_u64_le(&mut out, self.proof.bytes.len() as u64);
        push_bytes(&mut out, self.proof.bytes.as_slice());
        out.push(0u8);
        proof {
            assert(out@ =~= spec_signing_payload(*self));
        }
        out
    }

    /// An owned copy of this epoch with the same mathematical value.
    pub fn duplicate(&self) -> (r: FinalizedEpoch)
        ensures
            r@ == self@,
    {
        let signature = match &self.signature {
            None => None,
            Some(s) => Some(s.clone()),
        };
        FinalizedEpoch {
            height: self.height,
            prev_commitment: self.prev_commitment,
            current_commitment: self.current_commitment,
            proof: Proof { bytes: crate::encoding::copy_bytes(&self.proof.bytes) },
            signature,
        }
    }

    /// Sign the canonical unsigned encoding with `key` and store the
    /// signature, hex-encoded. Every other field is left unchanged, and the
    /// signed record verifies under the key's verifying key.
    pub fn insert_signature(&mut self, key: &SigningKey) -> (r: Result<(), EpochError>)
        requires
            key.wf(),
        ensures
            r is Ok,
            final(self).height == old(self).height,
            final(self).prev_commitment == old(self).prev_commitment,
            final(self).current_commitment == old(self).current_commitment,
            final(self).proof == old(self).proof,
            final(self).signature matches Some(s) && encode_utf8(s@) == hex_bytes_of(
                spec_signature_of(
                    key.algorithm,
                    key.key_bytes@,
                    spec_signing_payload(*old(self)),
                ),
            ),
            forall|vk: VerifyingKey|
                vk.algorithm == key.algorithm && vk.key_bytes@ == spec_public_key_of(
                    key.algorithm,
                    key.key_bytes@,
                ) ==> #[trigger] spec_verify_outcome(*final(self), vk) == Ok::<(), EpochError>(()),
    {
        let payload = self.signing_payload();
        let raw = key.sign(&payload);
        let digits = encode_hex(&raw);
        proof {
            lemma_hex_bytes_of_is_hex(raw@);
        }
        let hex_sig = hex_digits_to_string(digits);
        self.signature = Some(hex_sig);
        proof {
            assert(spec_signing_payload(*self) =~= spec_signing_payload(*old(self)));
            lemma_hex_roundtrip(raw@);
        }
        Ok(())
    }

    /// Verify the stored signature against the canonical unsigned encoding,
    /// classifying every failure: no signature, signature not hex, decoded
    /// bytes not a signature of the key's algorithm, or a cryptographic
    /// mismatch.
    pub fn verify_signature(&self, vk: VerifyingKey) -> (r: Result<(), EpochError>)
        requires
            vk.wf(),
        ensures
            r == spec_verify_outcome(*self, vk),
    {
        let payload = self.signing_payload();
        match &self.signature {
            None => Err(EpochError::MissingSignature),
            Some(s) => {
                let digits: &[u8] = s.as_str().as_bytes();
                match decode_hex(digits) {
                    None => Err(EpochError::SignatureDecodeError),
                    Some(raw) => {
                        if !vk.signature_shape_ok(&raw) {
                            Err(EpochError::AlgorithmOrLengthMismatch)
                        } else if !vk.verify_bytes(&payload, &raw) {
                            Err(EpochError::CryptographicMismatch)
                        } else {
                            Ok(())
                        }
                    },
                }
            },
        }
    }
}

/// Tamper evidence of the canonical encoding: epochs whose signing payloads
/// coincide agree on height, both commitments, and the proof. Mutating any of
/// those fields after signing therefore changes the message that
/// verification reconstructs.
pub proof fn lemma_signing_payload_injective(e1: FinalizedEpoch, e2: FinalizedEpoch)
    requires
        spec_signing_payload(e1) == spec_signing_payload(e2),
    ensures
        e1.height == e2.height,
        e1.prev_commitment.bytes() == e2.prev_commitment.bytes(),
        e1.current_commitment.bytes() == e2.current_commitment.bytes(),
        e1.proof.bytes@ == e2.proof.bytes@,
{
    let p1 = spec_signing_payload(e1);
    let p2 = spec_signing_payload(e2);
    let n1 = e1.proof.bytes@.len() as int;
    let n2 = e2.proof.bytes@.len() as int;
    assert(p1.len() == 81 + n1);
    assert(p2.len() == 81 + n2);
    assert(n1 == n2);
    assert(u64_le_bytes(e1.height) =~= u64_le_bytes(e2.height)) by {
        assert forall|i: int| 0 <= i < 8 implies u64_le_bytes(e1.height)[i] == u64_le_bytes(
            e2.height,
        )[i] by {
            assert(p1[i] == u64_le_bytes(e1.height)[i]);
            assert(p2[i] == u64_le_bytes(e2.height)[i]);
        }
    }
    lemma_u64_le_bytes_injective(e1.height, e2.height);
    assert(e1.prev_commitment.bytes() =~= e2.prev_commitment.bytes()) by {
        assert forall|i: int| 0 <= i < 32 implies e1.prev_commitment.bytes()[i]
            == e2.prev_commitment.bytes()[i] by {
            assert(p1[8 + i] == e1.prev_commitment.bytes()[i]);
            assert(p2[8 + i] == e2.prev_commitment.bytes()[i]);
        }
    }
    assert(e1.current_commitment.bytes() =~= e2.current_commitment.bytes()) by {
        assert forall|i: int| 0 <= i < 32 implies e1.current_commitment.bytes()[i]
            == e2.current_commitment.bytes()[i] by {
            assert(p1[40 + i] == e1.current_commitment.bytes()[i]);
            assert(p2[40 + i] == e2.current_commitment.bytes()[i]);
        }
    }
    assert(e1.proof.bytes@ =~= e2.proof.bytes@) by {
        assert forall|i: int| 0 <= i < n1 implies e1.proof.bytes@[i] == e2.proof.bytes@[i] by {
            assert(p1[80 + i] == e1.proof.bytes@[i]);
            assert(p2[80 + i] == e2.proof.bytes@[i]);
        }
    }
}

} // verus!
