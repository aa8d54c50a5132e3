//! The one-shot hybrid exchange: a single message to a recipient whose
//! static key is known, carrying both ephemeral public keys, both
//! ciphertexts, and a hybrid signature over all of them.

use vstd::prelude::*;
use crate::admission::AdmissionScore;
use crate::bytes::append;
use crate::bytes::copy_range;
use crate::error::ProtocolError;
use crate::handshake::derive_transport_key;
use crate::handshake::derive_key;
use crate::handshake::wipe;
use crate::handshake::Configuration;
use crate::handshake::LABEL_INITIATOR_TO_RESPONDER;
use crate::pq_kem::KemLevel;
use crate::pq_kem::KemSelector;
use crate::pq_shield::lemma_signature_binds_message;
use crate::pq_shield::DilithiumLevel;
use crate::pq_shield::SignatureScheme;
use crate::pq_shield::SignatureSelector;

verus! {

/// The bytes that the signature of the one-shot message covers: the
/// ciphertexts, then the ephemeral public keys.
pub open spec fn signed_part(keys: Seq<u8>, ciphertexts: Seq<u8>) -> Seq<u8> {
    ciphertexts + keys
}

/// The one-shot message: ephemeral public keys, ciphertexts, signature.
pub open spec fn one_shot_message() -> Seq<u8> {
    let keys = Configuration::Hybrid.public_key();
    let ciphertexts = Configuration::Hybrid.ciphertext();
    keys + ciphertexts + SignatureScheme::Hybrid.signature(signed_part(keys, ciphertexts))
}

/// Length of the one-shot message.
pub open spec fn one_shot_len() -> nat {
    Configuration::Hybrid.public_key().len() + Configuration::Hybrid.ciphertext().len()
        + SignatureScheme::Hybrid.signature_len()
}

/// The secret that both ends of a one-shot exchange derive from a message.
pub open spec fn channel_secret(message: Seq<u8>) -> Seq<u8> {
    derive_key(Configuration::Hybrid.round_secret(), message, LABEL_INITIATOR_TO_RESPONDER)
}

/// An endpoint of the one-shot hybrid exchange. It keeps no state between
/// calls but its providers, which count the calls made through them.
#[derive(Clone, Copy, Debug)]
pub struct HybridProtocol {
    pub kem: KemSelector,
    pub sig: SignatureSelector,
}

impl HybridProtocol {
    /// This endpoint after sending to a recipient, with the message and the
    /// channel secret.
    pub open spec fn initiated(self, recipient_pk: Seq<u8>, score: AdmissionScore) -> (
        HybridProtocol,
        Result<(Seq<u8>, Seq<u8>), ProtocolError>,
    ) {
        if !score.admitted() {
            (self, Err(ProtocolError::AdmissionDenied))
        } else if recipient_pk.len() != Configuration::Hybrid.public_key().len() {
            (self, Err(ProtocolError::HandshakeFailed))
        } else {
            (
                HybridProtocol {
                    kem: Configuration::Hybrid.charge(Configuration::Hybrid.charge(self.kem)),
                    sig: self.sig.counted(),
                },
                Ok((one_shot_message(), channel_secret(one_shot_message()))),
            )
        }
    }

    /// This endpoint after receiving a message, with the channel secret.
    pub open spec fn completed(self, message: Seq<u8>, sk: Seq<u8>, score: AdmissionScore) -> (
        HybridProtocol,
        Result<Seq<u8>, ProtocolError>,
    ) {
        let keys_len = Configuration::Hybrid.public_key().len() as int;
        let body_len = keys_len + Configuration::Hybrid.ciphertext().len();
        if !score.admitted() {
            (self, Err(ProtocolError::AdmissionDenied))
        } else if message.len() != one_shot_len() || sk.len()
            != Configuration::Hybrid.secret_key().len() {
            (self, Err(ProtocolError::HandshakeFailed))
        } else if message.subrange(body_len, message.len() as int)
            != SignatureScheme::Hybrid.signature(
            signed_part(message.subrange(0, keys_len), message.subrange(keys_len, body_len)),
        ) {
            (
                HybridProtocol { sig: self.sig.counted(), ..self },
                Err(ProtocolError::HandshakeFailed),
            )
        } else {
            (
                HybridProtocol {
                    kem: Configuration::Hybrid.charge(self.kem),
                    sig: self.sig.counted(),
                },
                Ok(channel_secret(message)),
            )
        }
    }

    /// An endpoint that has made no provider call yet.
    pub fn new() -> (protocol: HybridProtocol)
        ensures
            protocol == (HybridProtocol {
                kem: KemSelector::fresh(KemLevel::Kem768),
                sig: SignatureSelector::fresh(DilithiumLevel::Level5),
            }),
    {
        HybridProtocol {
            kem: KemSelector::new(KemLevel::Kem768),
            sig: SignatureSelector::new(DilithiumLevel::Level5),
        }
    }

    /// Sends to the holder of `recipient_pk`: yields the message and the
    /// channel secret. A refused score changes nothing; a recipient key of
    /// the wrong length fails before any provider call.
    pub fn initiate_handshake(&mut self, recipient_pk: &[u8], score: AdmissionScore) -> (res: Result<
        (Vec<u8>, Vec<u8>),
        ProtocolError,
    >)
        ensures
            !score.admitted() ==> res == Err::<(Vec<u8>, Vec<u8>), ProtocolError>(
                ProtocolError::AdmissionDenied,
            ),
            !score.admitted() ==> *final(self) == *old(self),
            *final(self) == old(self).initiated(recipient_pk@, score).0,
            match res {
                Ok(out) => old(self).initiated(recipient_pk@, score).1 matches Ok(pair)
                    && out.0@ == pair.0 && out.1@ == pair.1,
                Err(e) => old(self).initiated(recipient_pk@, score).1 == Err::<
                    (Seq<u8>, Seq<u8>),
                    ProtocolError,
                >(e),
            },
    {
        if !score.is_admitted() {
            return Err(ProtocolError::AdmissionDenied);
        }
        let cfg = Configuration::Hybrid;
        if recipient_pk.len() != cfg.public_len() {
            return Err(ProtocolError::HandshakeFailed);
        }
        let (keys, mut ephemeral_secret) = cfg.generate(&mut self.kem);
        let (ciphertexts, mut secrets) = cfg.encapsulate(&mut self.kem, recipient_pk);
        let mut signed = copy_range(ciphertexts.as_slice(), 0, ciphertexts.len());
        append(&mut signed, keys.as_slice());
        proof {
            assert(signed@ =~= signed_part(keys@, ciphertexts@));
        }
        let sig = self.sig.sign(Some(SignatureScheme::Hybrid), signed.as_slice());
        let mut message = keys;
        append(&mut message, ciphertexts.as_slice());
        append(&mut message, sig.as_slice());
        let secret = derive_transport_key(secrets.as_slice(), message.as_slice(), LABEL_INITIATOR_TO_RESPONDER);
        wipe(&mut ephemeral_secret);
        wipe(&mut secrets);
        Ok((message, secret))
    }

    /// Receives a one-shot message with the static secret key `sk`: checks
    /// the lengths and the signature, decapsulates, and yields the channel
    /// secret.
    pub fn complete_handshake(&mut self, message: &[u8], sk: &[u8], score: AdmissionScore) -> (res:
        Result<Vec<u8>, ProtocolError>)
        ensures
            !score.admitted() ==> res == Err::<Vec<u8>, ProtocolError>(
                ProtocolError::AdmissionDenied,
            ),
            !score.admitted() ==> *final(self) == *old(self),
            *final(self) == old(self).completed(message@, sk@, score).0,
            crate::handshake::same_outcome(res, old(self).completed(message@, sk@, score).1),
    {
        if !score.is_admitted() {
            return Err(ProtocolError::AdmissionDenied);
        }
        let cfg = Configuration::Hybrid;
        let keys_len: usize = cfg.public_len();
        let body_len: usize = keys_len + cfg.ciphertext_len();
        if message.len() != body_len + SignatureScheme::Hybrid.sig_len() || sk.len()
            != cfg.secret_len() {
            return Err(ProtocolError::HandshakeFailed);
        }
        let ciphertexts = copy_range(message, keys_len, body_len);
        let mut signed = copy_range(message, keys_len, body_len);
        append(&mut signed, vstd::slice::slice_subrange(message, 0, keys_len));
        let genuine = self.sig.verify(
            Some(SignatureScheme::Hybrid),
            signed.as_slice(),
            vstd::slice::slice_subrange(message, body_len, message.len()),
        );
        if !genuine {
            return Err(ProtocolError::HandshakeFailed);
        }
        let mut secrets = cfg.decapsulate(&mut self.kem, sk, ciphertexts.as_slice());
        let secret = derive_transport_key(secrets.as_slice(), message, LABEL_INITIATOR_TO_RESPONDER);
        wipe(&mut secrets);
        Ok(secret)
    }
}

/// The recipient of an unchanged one-shot message derives the sender's
/// channel secret.
pub proof fn lemma_one_shot_agrees(
    sender: HybridProtocol,
    recipient: HybridProtocol,
    recipient_pk: Seq<u8>,
    sk: Seq<u8>,
    score: AdmissionScore,
)
    requires
        score.admitted(),
        recipient_pk.len() == Configuration::Hybrid.public_key().len(),
        sk.len() == Configuration::Hybrid.secret_key().len(),
    ensures
        sender.initiated(recipient_pk, score).1 is Ok,
        recipient.completed(sender.initiated(recipient_pk, score).1->Ok_0.0, sk, score).1 == Ok::<
            Seq<u8>,
            ProtocolError,
        >(sender.initiated(recipient_pk, score).1->Ok_0.1),
{
    let keys = Configuration::Hybrid.public_key();
    let ciphertexts = Configuration::Hybrid.ciphertext();
    let message = one_shot_message();
    let keys_len = keys.len() as int;
    let body_len = keys_len + ciphertexts.len();
    assert(message.subrange(0, keys_len) =~= keys);
    assert(message.subrange(keys_len, body_len) =~= ciphertexts);
    assert(message.subrange(body_len, message.len() as int) =~= SignatureScheme::Hybrid.signature(
        signed_part(keys, ciphertexts),
    ));
}

/// A one-shot message of which any single byte was changed in transit is
/// rejected, and no secret is derived from it.
pub proof fn lemma_changed_one_shot_is_rejected(
    recipient: HybridProtocol,
    sk: Seq<u8>,
    score: AdmissionScore,
    at: int,
    byte: u8,
)
    requires
        score.admitted(),
        0 <= at < one_shot_message().len(),
        byte != one_shot_message()[at],
    ensures
        recipient.completed(one_shot_message().update(at, byte), sk, score).1 == Err::<
            Seq<u8>,
            ProtocolError,
        >(ProtocolError::HandshakeFailed),
{
    let keys = Configuration::Hybrid.public_key();
    let ciphertexts = Configuration::Hybrid.ciphertext();
    let message = one_shot_message();
    let changed = message.update(at, byte);
    let keys_len = keys.len() as int;
    let body_len = keys_len + ciphertexts.len();
    let honest = SignatureScheme::Hybrid.signature(signed_part(keys, ciphertexts));
    if at < keys_len {
        assert(changed.subrange(0, keys_len) =~= keys.update(at, byte));
        assert(changed.subrange(keys_len, body_len) =~= ciphertexts);
        assert(changed.subrange(body_len, changed.len() as int) =~= honest);
        assert(signed_part(keys.update(at, byte), ciphertexts) =~= signed_part(
            keys,
            ciphertexts,
        ).update(ciphertexts.len() + at, byte));
        lemma_signature_binds_message(
            SignatureScheme::Hybrid,
            signed_part(keys, ciphertexts),
            ciphertexts.len() + at,
            byte,
        );
    } else if at < body_len {
        assert(changed.subrange(0, keys_len) =~= keys);
        assert(changed.subrange(keys_len, body_len) =~= ciphertexts.update(at - keys_len, byte));
        assert(changed.subrange(body_len, changed.len() as int) =~= honest);
        assert(signed_part(keys, ciphertexts.update(at - keys_len, byte)) =~= signed_part(
            keys,
            ciphertexts,
        ).update(at - keys_len, byte));
        lemma_signature_binds_message(
            SignatureScheme::Hybrid,
            signed_part(keys, ciphertexts),
            at - keys_len,
            byte,
        );
    } else {
        assert(changed.subrange(0, keys_len) =~= keys);
        assert(changed.subrange(keys_len, body_len) =~= ciphertexts);
    }
}

} // verus!
