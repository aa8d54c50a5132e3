//! Migration of an established connection to a new network path.
//!
//! The endpoint that moves sends a probe: a challenge ciphertext, an
//! attestation reference, a signature over both and over the identifier of
//! the new path, and that identifier. The peer adopts the path only if the
//! probe arrived on the path it names and the signature is genuine. The
//! transport keys are never touched.

use vstd::prelude::*;
use vstd::string::StringSliceAdditionalSpecFns;
use crate::admission::AdmissionScore;
use crate::bytes::append;
use crate::bytes::copy_range;
use crate::bytes::filled;
use crate::bytes::repeat;
use crate::bytes::same_bytes;
use crate::error::ProtocolError;
use crate::handshake::same_outcome;
use crate::handshake::wipe;
use crate::pq_kem::shared_secret;
use crate::pq_kem::KemLevel;
use crate::pq_kem::KemSelector;
use crate::pq_kem::KeyExchangeScheme;
use crate::pq_shield::tagged;
use crate::pq_shield::DilithiumLevel;
use crate::pq_shield::SignatureScheme;
use crate::pq_shield::SignatureSelector;
use crate::quic_pq::unkeyed;
use crate::quic_pq::QuicPq;
use crate::quic_pq::QuicView;
use crate::quic_pq::FIRST_STREAM_ID;

verus! {

/// Length in bytes of the attestation reference in a probe.
pub const PROBE_REFERENCE_LEN: usize = 128;

/// Marker byte of the attestation reference in a probe.
pub const PROBE_BYTE: u8 = 0x3C;

/// Length in bytes of the fixed part of a path response.
pub const RESPONSE_LEN: usize = 128;

/// Marker byte of a path response.
pub const RESPONSE_BYTE: u8 = 0x4D;

/// The scheme of the challenge.
pub open spec fn challenge_scheme() -> KeyExchangeScheme {
    KeyExchangeScheme::MlKem(KemLevel::Kem1024)
}

/// The scheme of the probe's signature.
pub open spec fn probe_scheme() -> SignatureScheme {
    SignatureScheme::Dilithium(DilithiumLevel::Level5)
}

/// The part of a probe that comes before the signature: the challenge
/// ciphertext, then the attestation reference.
pub open spec fn probe_body() -> Seq<u8> {
    challenge_scheme().ciphertext() + repeat(PROBE_BYTE, PROBE_REFERENCE_LEN as nat)
}

/// Length of a probe without the path identifier that ends it.
pub open spec fn probe_fixed_len() -> nat {
    probe_body().len() + probe_scheme().signature_len()
}

/// The probe for a path: body, signature over body and path, path.
pub open spec fn probe(path: Seq<u8>) -> Seq<u8> {
    probe_body() + probe_scheme().signature(probe_body() + path) + path
}

/// The response that adopts a path: a fixed part bound to the challenge's
/// secret and the path, then the path.
pub open spec fn path_response(path: Seq<u8>) -> Seq<u8> {
    tagged(RESPONSE_BYTE, RESPONSE_LEN as nat, shared_secret() + path) + path
}

/// The mathematical content of a migrating endpoint.
pub struct MigrationView {
    pub quic: QuicView,
    pub kem: KemSelector,
    pub sig: SignatureSelector,
    pub path: Seq<u8>,
    pub pending: Option<Seq<u8>>,
}

impl MigrationView {
    /// This endpoint after asking to move to `new_path`, with the probe.
    pub open spec fn migrated(self, new_path: Seq<u8>, score: AdmissionScore) -> (
        MigrationView,
        Result<Seq<u8>, ProtocolError>,
    ) {
        if !score.admitted() {
            (self, Err(ProtocolError::AdmissionDenied))
        } else if self.pending is Some {
            (self, Err(ProtocolError::MigrationInProgress))
        } else {
            (
                MigrationView {
                    kem: self.kem.counted(),
                    sig: self.sig.counted(),
                    pending: Some(new_path),
                    ..self
                },
                Ok(probe(new_path)),
            )
        }
    }

    /// This endpoint after a probe arrived on `arrival`, with the response.
    pub open spec fn validated(self, packet: Seq<u8>, arrival: Seq<u8>, score: AdmissionScore) -> (
        MigrationView,
        Result<Seq<u8>, ProtocolError>,
    ) {
        let body_len = probe_body().len() as int;
        let fixed = probe_fixed_len() as int;
        if !score.admitted() {
            (self, Err(ProtocolError::AdmissionDenied))
        } else if self.pending is Some {
            (self, Err(ProtocolError::MigrationInProgress))
        } else if packet.len() < fixed || packet.subrange(fixed, packet.len() as int) != arrival {
            (self, Err(ProtocolError::MigrationFailed))
        } else if packet.subrange(body_len, fixed) != probe_scheme().signature(
            packet.subrange(0, body_len) + arrival,
        ) {
            (
                MigrationView { sig: self.sig.counted(), ..self },
                Err(ProtocolError::MigrationFailed),
            )
        } else {
            (
                MigrationView {
                    kem: self.kem.counted(),
                    sig: self.sig.counted(),
                    path: arrival,
                    ..self
                },
                Ok(path_response(arrival)),
            )
        }
    }

    /// This endpoint after the peer's response to its probe arrived.
    pub open spec fn confirmed(self, response: Seq<u8>, score: AdmissionScore) -> (
        MigrationView,
        Result<(), ProtocolError>,
    ) {
        if !score.admitted() {
            (self, Err(ProtocolError::AdmissionDenied))
        } else {
            match self.pending {
                None => (self, Err(ProtocolError::MigrationFailed)),
                Some(asked) => if response == path_response(asked) {
                    (MigrationView { path: asked, pending: None, ..self }, Ok(()))
                } else {
                    (MigrationView { pending: None, ..self }, Err(ProtocolError::MigrationFailed))
                },
            }
        }
    }
}

/// The view of an optional byte string.
pub open spec fn view_of(bytes: Option<Vec<u8>>) -> Option<Seq<u8>> {
    match bytes {
        Some(v) => Some(v@),
        None => None,
    }
}

/// An endpoint that can move its connection to another path.
#[derive(Debug)]
pub struct QuicMigration {
    pub quic: QuicPq,
    pub kem: KemSelector,
    pub sig: SignatureSelector,
    pub path: Vec<u8>,
    pub pending: Option<Vec<u8>>,
}

impl View for QuicMigration {
    type V = MigrationView;

    open spec fn view(&self) -> MigrationView {
        MigrationView {
            quic: self.quic@,
            kem: self.kem,
            sig: self.sig,
            path: self.path@,
            pending: view_of(self.pending),
        }
    }
}

/// Builds the fixed part of the response for a path.
fn response_head(path: &[u8]) -> (head: Vec<u8>)
    ensures
        head@ == tagged(RESPONSE_BYTE, RESPONSE_LEN as nat, shared_secret() + path@),
{
    let mut bound = filled(crate::pq_kem::SHARED_SECRET_BYTE, crate::pq_kem::SHARED_SECRET_LEN);
    append(&mut bound, path);
    let mut head = filled(RESPONSE_BYTE, RESPONSE_LEN);
    head.set(0, crate::bytes::checksum_of(bound.as_slice()));
    wipe(&mut bound);
    head
}

impl QuicMigration {
    /// An endpoint on the empty path with no validation in flight.
    pub fn new() -> (migration: QuicMigration)
        ensures
            migration@ == (MigrationView {
                quic: unkeyed(),
                kem: KemSelector::fresh(KemLevel::Kem1024),
                sig: SignatureSelector::fresh(DilithiumLevel::Level5),
                path: Seq::empty(),
                pending: None,
            }),
    {
        QuicMigration {
            quic: QuicPq::new(),
            kem: KemSelector::new(KemLevel::Kem1024),
            sig: SignatureSelector::new(DilithiumLevel::Level5),
            path: Vec::new(),
            pending: None,
        }
    }

    /// Asks to move to `new_path` and yields the probe. A refused score
    /// changes nothing; while an earlier request is in flight a second one
    /// is refused with `MigrationInProgress` and changes nothing.
    pub fn client_migrate(&mut self, new_path: &str, score: AdmissionScore) -> (res: Result<
        Vec<u8>,
        ProtocolError,
    >)
        ensures
            !score.admitted() ==> res == Err::<Vec<u8>, ProtocolError>(
                ProtocolError::AdmissionDenied,
            ),
            !score.admitted() ==> final(self)@ == old(self)@,
            final(self)@ == old(self)@.migrated(new_path.spec_bytes(), score).0,
            same_outcome(res, old(self)@.migrated(new_path.spec_bytes(), score).1),
    {
        if !score.is_admitted() {
            return Err(ProtocolError::AdmissionDenied);
        }
        if self.pending.is_some() {
            return Err(ProtocolError::MigrationInProgress);
        }
        let path = new_path.as_bytes();
        let peer = filled(
            crate::pq_kem::MLKEM_KEY_BYTE,
            KeyExchangeScheme::MlKem(KemLevel::Kem1024).pk_len(),
        );
        let (mut packet, mut secret) = self.kem.encapsulate(
            Some(KeyExchangeScheme::MlKem(KemLevel::Kem1024)),
            peer.as_slice(),
        );
        wipe(&mut secret);
        let reference = filled(PROBE_BYTE, PROBE_REFERENCE_LEN);
        append(&mut packet, reference.as_slice());
        let mut signed = copy_range(packet.as_slice(), 0, packet.len());
        append(&mut signed, path);
        proof {
            assert(signed@ =~= probe_body() + path@);
        }
        let sig = self.sig.sign(
            Some(SignatureScheme::Dilithium(DilithiumLevel::Level5)),
            signed.as_slice(),
        );
        append(&mut packet, sig.as_slice());
        append(&mut packet, path);
        let asked = copy_range(path, 0, path.len());
        proof {
            assert(asked@ =~= path@);
        }
        self.pending = Some(asked);
        Ok(packet)
    }

    /// Takes a probe that arrived on `arrival_path`. Adopts that path and
    /// yields the response if the probe names it and is genuinely signed;
    /// otherwise fails with `MigrationFailed` and keeps the old path. The
    /// connection and its transport keys are the same after every outcome.
    pub fn server_validate_migration(
        &mut self,
        mig_packet: &[u8],
        arrival_path: &str,
        score: AdmissionScore,
    ) -> (res: Result<Vec<u8>, ProtocolError>)
        ensures
            !score.admitted() ==> res == Err::<Vec<u8>, ProtocolError>(
                ProtocolError::AdmissionDenied,
            ),
            !score.admitted() ==> final(self)@ == old(self)@,
            final(self)@ == old(self)@.validated(mig_packet@, arrival_path.spec_bytes(), score).0,
            same_outcome(
                res,
                old(self)@.validated(mig_packet@, arrival_path.spec_bytes(), score).1,
            ),
    {
        if !score.is_admitted() {
            return Err(ProtocolError::AdmissionDenied);
        }
        if self.pending.is_some() {
            return Err(ProtocolError::MigrationInProgress);
        }
        let arrival = arrival_path.as_bytes();
        let kem_scheme = KeyExchangeScheme::MlKem(KemLevel::Kem1024);
        let sig_scheme = SignatureScheme::Dilithium(DilithiumLevel::Level5);
        let challenge_len: usize = kem_scheme.ct_len();
        let body_len: usize = challenge_len + PROBE_REFERENCE_LEN;
        let fixed: usize = body_len + sig_scheme.sig_len();
        if mig_packet.len() < fixed {
            return Err(ProtocolError::MigrationFailed);
        }
        if !same_bytes(vstd::slice::slice_subrange(mig_packet, fixed, mig_packet.len()), arrival) {
            return Err(ProtocolError::MigrationFailed);
        }
        let mut signed = copy_range(mig_packet, 0, body_len);
        append(&mut signed, arrival);
        let genuine = self.sig.verify(
            Some(sig_scheme),
            signed.as_slice(),
            vstd::slice::slice_subrange(mig_packet, body_len, fixed),
        );
        if !genuine {
            return Err(ProtocolError::MigrationFailed);
        }
        let static_sk = filled(crate::pq_kem::MLKEM_KEY_BYTE, kem_scheme.sk_len());
        let mut secret = self.kem.decapsulate(
            Some(kem_scheme),
            static_sk.as_slice(),
            vstd::slice::slice_subrange(mig_packet, 0, challenge_len),
        );
        wipe(&mut secret);
        let mut response = response_head(arrival);
        append(&mut response, arrival);
        let adopted = copy_range(arrival, 0, arrival.len());
        proof {
            assert(adopted@ =~= arrival@);
        }
        self.path = adopted;
        Ok(response)
    }

    /// Takes the peer's response to the probe in flight. Adopts the path
    /// asked for if the response is the one for that path; otherwise fails
    /// with `MigrationFailed` and keeps the old path. Either way nothing is
    /// in flight afterwards.
    pub fn client_complete(&mut self, response: &[u8], score: AdmissionScore) -> (res: Result<
        (),
        ProtocolError,
    >)
        ensures
            !score.admitted() ==> res == Err::<(), ProtocolError>(
                ProtocolError::AdmissionDenied,
            ),
            !score.admitted() ==> final(self)@ == old(self)@,
            final(self)@ == old(self)@.confirmed(response@, score).0,
            res == old(self)@.confirmed(response@, score).1,
    {
        if !score.is_admitted() {
            return Err(ProtocolError::AdmissionDenied);
        }
        match self.pending.take() {
            None => Err(ProtocolError::MigrationFailed),
            Some(asked) => {
                let mut expected = response_head(asked.as_slice());
                append(&mut expected, asked.as_slice());
                if same_bytes(response, expected.as_slice()) {
                    self.path = asked;
                    Ok(())
                } else {
                    Err(ProtocolError::MigrationFailed)
                }
            },
        }
    }

    /// The stream that carries on after a migration: the connection's first
    /// stream, under the identifier it had before.
    pub fn post_migration_stream(&self) -> (res: Result<u64, ProtocolError>)
        ensures
            res == Ok::<u64, ProtocolError>(FIRST_STREAM_ID),
    {
        self.quic.open_stream()
    }
}

/// A probe is adopted on the path it was made for, and the connection
/// with its transport keys is the same afterwards.
pub proof fn lemma_probe_is_adopted_on_its_path(
    peer: MigrationView,
    path: Seq<u8>,
    score: AdmissionScore,
)
    requires
        score.admitted(),
        peer.pending is None,
    ensures
        peer.validated(probe(path), path, score).1 == Ok::<Seq<u8>, ProtocolError>(
            path_response(path),
        ),
        peer.validated(probe(path), path, score).0.path == path,
        peer.validated(probe(path), path, score).0.quic == peer.quic,
{
    let packet = probe(path);
    let body_len = probe_body().len() as int;
    let fixed = probe_fixed_len() as int;
    assert(packet.subrange(0, body_len) =~= probe_body());
    assert(packet.subrange(body_len, fixed) =~= probe_scheme().signature(probe_body() + path));
    assert(packet.subrange(fixed, packet.len() as int) =~= path);
}

/// A probe made for one path is refused on every other path: the old path
/// stays, and so do the connection and its transport keys.
pub proof fn lemma_probe_is_refused_on_another_path(
    peer: MigrationView,
    made_for: Seq<u8>,
    arrival: Seq<u8>,
    score: AdmissionScore,
)
    requires
        score.admitted(),
        peer.pending is None,
        made_for != arrival,
    ensures
        peer.validated(probe(made_for), arrival, score).1 == Err::<Seq<u8>, ProtocolError>(
            ProtocolError::MigrationFailed,
        ),
        peer.validated(probe(made_for), arrival, score).0 == peer,
{
    let packet = probe(made_for);
    let fixed = probe_fixed_len() as int;
    assert(packet.subrange(fixed, packet.len() as int) =~= made_for);
}

/// While one request is in flight a second one is refused and changes
/// nothing; the response to the first one adopts the path asked for.
pub proof fn lemma_one_validation_in_flight(
    endpoint: MigrationView,
    first: Seq<u8>,
    second: Seq<u8>,
    score: AdmissionScore,
)
    requires
        score.admitted(),
        endpoint.pending is None,
    ensures
        ({
            let asked = endpoint.migrated(first, score);
            &&& asked.1 == Ok::<Seq<u8>, ProtocolError>(probe(first))
            &&& asked.0.migrated(second, score) == (
                asked.0,
                Err::<Seq<u8>, ProtocolError>(ProtocolError::MigrationInProgress),
            )
            &&& asked.0.confirmed(path_response(first), score).1 == Ok::<(), ProtocolError>(())
            &&& asked.0.confirmed(path_response(first), score).0.path == first
            &&& asked.0.confirmed(path_response(first), score).0.pending is None
            &&& asked.0.quic == endpoint.quic
        }),
{
}

} // verus!
