//! The handshake engine: one state machine for every configuration.
//!
//! A session moves from `Idle` through one waiting phase to `KeyDerived`, or
//! to `ClosedAborted` as soon as a peer's message fails a check. Three
//! messages make a full exchange:
//!
//! 1. the initiator's ephemeral public key;
//! 2. the responder's ephemeral key, a ciphertext for the initiator's
//!    ephemeral key, the responder's static key, and a signature over
//!    everything so far;
//! 3. the initiator's static key, a ciphertext for the responder's
//!    ephemeral key, and a signature over everything so far.
//!
//! Every step is described twice: as a function on the mathematical view of
//! a session, and as the executable method proved to compute it.

use vstd::prelude::*;
use crate::admission::AdmissionScore;
use crate::bytes::append;
use crate::bytes::checksum;
use crate::bytes::checksum_of;
use crate::bytes::copy_range;
use crate::bytes::filled;
use crate::bytes::repeat;
use crate::error::ProtocolError;
use crate::pq_kem::shared_secret;
use crate::pq_kem::KemLevel;
use crate::pq_kem::KemSelector;
use crate::pq_kem::KeyExchangeScheme;
use crate::pq_shield::DilithiumLevel;
use crate::pq_shield::SignatureScheme;
use crate::pq_shield::SignatureSelector;

verus! {

/// Length in bytes of a transport key.
pub const KEY_LEN: usize = 32;

/// Length in bytes of the prologue that opens every transcript.
pub const PROLOGUE_LEN: usize = 32;

/// Label of the key that protects traffic from initiator to responder.
pub const LABEL_INITIATOR_TO_RESPONDER: u8 = 1;

/// Label of the key that protects traffic from responder to initiator.
pub const LABEL_RESPONDER_TO_INITIATOR: u8 = 2;

/// Which side of the exchange a session plays.
#[derive(Clone, Copy, Debug, PartialEq, Eq, Structural)]
pub enum Role {
    Initiator,
    Responder,
}

/// Where a session stands.
#[derive(Clone, Copy, Debug, PartialEq, Eq, Structural)]
pub enum Phase {
    /// Nothing sent or received yet.
    Idle,
    /// The initiator has sent its ephemeral key and waits for the second message.
    AwaitingPeerEphemeral,
    /// The responder has answered and waits for the third message.
    AwaitingPeerResponse,
    /// Both transport keys are installed.
    KeyDerived,
    /// Closed after the keys were derived.
    ClosedCompleted,
    /// Closed before any key was installed.
    ClosedAborted,
}

/// How many encapsulations and signatures a message combines.
#[derive(Clone, Copy, Debug, PartialEq, Eq, Structural)]
pub enum Configuration {
    /// One lattice exchange at the highest level, lattice signatures.
    PurePq,
    /// A classical-shaped exchange beside a lattice exchange, hybrid signatures.
    Hybrid,
}

impl Configuration {
    /// The lattice scheme of this configuration.
    pub open spec fn lattice(self) -> KeyExchangeScheme {
        match self {
            Configuration::PurePq => KeyExchangeScheme::MlKem(KemLevel::Kem1024),
            Configuration::Hybrid => KeyExchangeScheme::MlKem(KemLevel::Kem768),
        }
    }

    /// The signature scheme of this configuration.
    pub open spec fn signature_scheme(self) -> SignatureScheme {
        match self {
            Configuration::PurePq => SignatureScheme::Dilithium(DilithiumLevel::Level5),
            Configuration::Hybrid => SignatureScheme::Hybrid,
        }
    }

    /// The public key, or the two public keys in a row, of one side.
    pub open spec fn public_key(self) -> Seq<u8> {
        match self {
            Configuration::PurePq => self.lattice().public_key(),
            Configuration::Hybrid => KeyExchangeScheme::Hybrid.public_key()
                + self.lattice().public_key(),
        }
    }

    /// The secret key, or the two secret keys in a row, of one side.
    pub open spec fn secret_key(self) -> Seq<u8> {
        match self {
            Configuration::PurePq => self.lattice().secret_key(),
            Configuration::Hybrid => KeyExchangeScheme::Hybrid.secret_key()
                + self.lattice().secret_key(),
        }
    }

    /// The ciphertext, or the two ciphertexts in a row, of one encapsulation round.
    pub open spec fn ciphertext(self) -> Seq<u8> {
        match self {
            Configuration::PurePq => self.lattice().ciphertext(),
            Configuration::Hybrid => KeyExchangeScheme::Hybrid.ciphertext()
                + self.lattice().ciphertext(),
        }
    }

    /// The secret, or the two secrets in a row, of one encapsulation round.
    pub open spec fn round_secret(self) -> Seq<u8> {
        match self {
            Configuration::PurePq => shared_secret(),
            Configuration::Hybrid => shared_secret() + shared_secret(),
        }
    }

    /// A selector after one round of this configuration: one provider call,
    /// or two where two exchanges run side by side.
    pub open spec fn charge(self, kem: KemSelector) -> KemSelector {
        match self {
            Configuration::PurePq => kem.counted(),
            Configuration::Hybrid => kem.counted().counted(),
        }
    }

    /// Marker byte of this configuration's prologue.
    pub open spec fn prologue_byte(self) -> u8 {
        match self {
            Configuration::PurePq => 0xA1,
            Configuration::Hybrid => 0xA2,
        }
    }

    /// The bytes that open every transcript of this configuration.
    pub open spec fn prologue(self) -> Seq<u8> {
        repeat(self.prologue_byte(), PROLOGUE_LEN as nat)
    }

    /// The long-term public key under which an endpoint signs.
    pub open spec fn static_key(self) -> Seq<u8> {
        repeat(self.signature_scheme().marker(), self.signature_scheme().public_key_len())
    }

    /// Length of the first message.
    pub open spec fn first_len(self) -> nat {
        self.public_key().len()
    }

    /// Length of the signed part of the second message.
    pub open spec fn second_body_len(self) -> nat {
        self.public_key().len() + self.ciphertext().len() + self.static_key().len()
    }

    /// Length of the second message.
    pub open spec fn second_len(self) -> nat {
        self.second_body_len() + self.signature_scheme().signature_len()
    }

    /// Length of the signed part of the third message.
    pub open spec fn third_body_len(self) -> nat {
        self.static_key().len() + self.ciphertext().len()
    }

    /// Length of the third message.
    pub open spec fn third_len(self) -> nat {
        self.third_body_len() + self.signature_scheme().signature_len()
    }

    /// The signed part of the second message.
    pub open spec fn second_body(self) -> Seq<u8> {
        self.public_key() + self.ciphertext() + self.static_key()
    }

    /// The signed part of the third message.
    pub open spec fn third_body(self) -> Seq<u8> {
        self.static_key() + self.ciphertext()
    }
}

/// Byte `i` of a transport key: the secret's checksum, the secret's own
/// byte, the transcript's checksum, the direction label and the index,
/// added modulo 256.
pub open spec fn key_byte(secret: Seq<u8>, transcript: Seq<u8>, label: u8, i: int) -> u8 {
    ((checksum(secret) as int + secret[i] as int + checksum(transcript) as int + label as int + i)
        % 256) as u8
}

/// The transport key that a secret and a transcript yield for one direction.
pub open spec fn derive_key(secret: Seq<u8>, transcript: Seq<u8>, label: u8) -> Seq<u8> {
    Seq::new(KEY_LEN as nat, |i: int| key_byte(secret, transcript, label, i))
}

/// Derives a transport key.
pub fn derive_transport_key(secret: &[u8], transcript: &[u8], label: u8) -> (key: Vec<u8>)
    requires
        secret@.len() >= KEY_LEN,
    ensures
        key@ == derive_key(secret@, transcript@, label),
{
    let cs: u32 = checksum_of(secret) as u32;
    let ct: u32 = checksum_of(transcript) as u32;
    let mut key: Vec<u8> = Vec::new();
    let mut i: usize = 0;
    while i < KEY_LEN
        invariant
            i <= KEY_LEN,
            secret@.len() >= KEY_LEN,
            cs == checksum(secret@),
            ct == checksum(transcript@),
            key@.len() == i,
            forall|j: int| 0 <= j < i ==> key@[j] == key_byte(secret@, transcript@, label, j),
        decreases KEY_LEN - i,
    {
        let total: u32 = cs + secret[i] as u32 + ct + label as u32 + i as u32;
        key.push((total % 256) as u8);
        i = i + 1;
    }
    key
}

/// Overwrites a buffer with zeros and empties it.
pub fn wipe(buffer: &mut Vec<u8>)
    ensures
        final(buffer)@ == Seq::<u8>::empty(),
{
    let mut i: usize = 0;
    while i < buffer.len()
        invariant
            buffer@.len() == old(buffer)@.len(),
        decreases buffer@.len() - i,
    {
        buffer.set(i, 0);
        i = i + 1;
    }
    buffer.clear();
}

/// Two symmetric keys, one per direction, with the score under which they
/// were installed.
#[derive(Debug)]
pub struct TransportKeyPair {
    pub send: Vec<u8>,
    pub recv: Vec<u8>,
    pub admission: AdmissionScore,
}

/// The mathematical content of a session.
pub struct SessionView {
    pub config: Configuration,
    pub role: Option<Role>,
    pub phase: Phase,
    pub kem: KemSelector,
    pub sig: SignatureSelector,
    pub transcript: Seq<u8>,
    pub ephemeral_secret: Seq<u8>,
    pub secrets: Seq<u8>,
    pub send_key: Seq<u8>,
    pub recv_key: Seq<u8>,
    pub admission: AdmissionScore,
}

impl SessionView {
    /// This session closed in `phase`, every secret and key wiped.
    pub open spec fn closed(self, phase: Phase) -> SessionView {
        SessionView {
            phase,
            ephemeral_secret: Seq::empty(),
            secrets: Seq::empty(),
            send_key: Seq::empty(),
            recv_key: Seq::empty(),
            ..self
        }
    }

    /// This session aborted.
    pub open spec fn aborted(self) -> SessionView {
        self.closed(Phase::ClosedAborted)
    }

    /// The first message and the session that has sent it.
    pub open spec fn start(self, score: AdmissionScore) -> (SessionView, Result<
        Seq<u8>,
        ProtocolError,
    >) {
        if !score.admitted() {
            (self, Err(ProtocolError::AdmissionDenied))
        } else if self.phase != Phase::Idle {
            (self, Err(ProtocolError::SessionBusy))
        } else {
            let first = self.config.public_key();
            (
                SessionView {
                    role: Some(Role::Initiator),
                    phase: Phase::AwaitingPeerEphemeral,
                    kem: self.config.charge(self.kem),
                    transcript: self.config.prologue() + first,
                    ephemeral_secret: self.config.secret_key(),
                    admission: score,
                    ..self
                },
                Ok(first),
            )
        }
    }

    /// The second message and the session that has sent it.
    pub open spec fn respond(self, first: Seq<u8>, score: AdmissionScore) -> (SessionView, Result<
        Seq<u8>,
        ProtocolError,
    >) {
        if !score.admitted() {
            (self, Err(ProtocolError::AdmissionDenied))
        } else if self.phase != Phase::Idle {
            (self, Err(ProtocolError::SessionBusy))
        } else if first.len() != self.config.first_len() {
            (self.aborted(), Err(ProtocolError::HandshakeFailed))
        } else {
            let heard = self.config.prologue() + first;
            let body = self.config.second_body();
            let second = body + self.config.signature_scheme().signature(heard + body);
            (
                SessionView {
                    role: Some(Role::Responder),
                    phase: Phase::AwaitingPeerResponse,
                    kem: self.config.charge(self.config.charge(self.kem)),
                    sig: self.sig.counted(),
                    transcript: heard + second,
                    ephemeral_secret: self.config.secret_key(),
                    secrets: self.config.round_secret(),
                    admission: score,
                    ..self
                },
                Ok(second),
            )
        }
    }

    /// The third message and the initiator that has installed its keys.
    pub open spec fn finish(self, second: Seq<u8>, score: AdmissionScore) -> (SessionView, Result<
        Seq<u8>,
        ProtocolError,
    >) {
        let body_len = self.config.second_body_len() as int;
        if !score.admitted() {
            (self, Err(ProtocolError::AdmissionDenied))
        } else if self.phase != Phase::AwaitingPeerEphemeral {
            (self, Err(ProtocolError::SessionBusy))
        } else if second.len() != self.config.second_len() || self.ephemeral_secret.len()
            != self.config.secret_key().len() {
            (self.aborted(), Err(ProtocolError::HandshakeFailed))
        } else if second.subrange(body_len, second.len() as int)
            != self.config.signature_scheme().signature(
            self.transcript + second.subrange(0, body_len),
        ) {
            (
                SessionView { sig: self.sig.counted(), ..self }.aborted(),
                Err(ProtocolError::HandshakeFailed),
            )
        } else {
            let heard = self.transcript + second;
            let body = self.config.third_body();
            let third = body + self.config.signature_scheme().signature(heard + body);
            let secrets = self.config.round_secret() + self.config.round_secret();
            let full = heard + third;
            (
                SessionView {
                    phase: Phase::KeyDerived,
                    kem: self.config.charge(self.config.charge(self.kem)),
                    sig: self.sig.counted().counted(),
                    transcript: full,
                    ephemeral_secret: Seq::empty(),
                    secrets: Seq::empty(),
                    send_key: derive_key(secrets, full, LABEL_INITIATOR_TO_RESPONDER),
                    recv_key: derive_key(secrets, full, LABEL_RESPONDER_TO_INITIATOR),
                    admission: score,
                    ..self
                },
                Ok(third),
            )
        }
    }

    /// The responder that has installed its keys.
    pub open spec fn complete(self, third: Seq<u8>, score: AdmissionScore) -> (SessionView, Result<
        (),
        ProtocolError,
    >) {
        let body_len = self.config.third_body_len() as int;
        if !score.admitted() {
            (self, Err(ProtocolError::AdmissionDenied))
        } else if self.phase != Phase::AwaitingPeerResponse {
            (self, Err(ProtocolError::SessionBusy))
        } else if third.len() != self.config.third_len() || self.secrets.len()
            != self.config.round_secret().len() || self.ephemeral_secret.len()
            != self.config.secret_key().len() {
            (self.aborted(), Err(ProtocolError::HandshakeFailed))
        } else if third.subrange(body_len, third.len() as int)
            != self.config.signature_scheme().signature(
            self.transcript + third.subrange(0, body_len),
        ) {
            (
                SessionView { sig: self.sig.counted(), ..self }.aborted(),
                Err(ProtocolError::HandshakeFailed),
            )
        } else {
            let secrets = self.secrets + self.config.round_secret();
            let full = self.transcript + third;
            (
                SessionView {
                    phase: Phase::KeyDerived,
                    kem: self.config.charge(self.kem),
                    sig: self.sig.counted(),
                    transcript: full,
                    ephemeral_secret: Seq::empty(),
                    secrets: Seq::empty(),
                    send_key: derive_key(secrets, full, LABEL_RESPONDER_TO_INITIATOR),
                    recv_key: derive_key(secrets, full, LABEL_INITIATOR_TO_RESPONDER),
                    admission: score,
                    ..self
                },
                Ok(()),
            )
        }
    }

    /// This session after the caller has closed it.
    pub open spec fn shut(self) -> SessionView {
        if self.phase == Phase::KeyDerived || self.phase == Phase::ClosedCompleted {
            self.closed(Phase::ClosedCompleted)
        } else {
            self.closed(Phase::ClosedAborted)
        }
    }
}

impl Configuration {
    /// The lattice scheme of this configuration.
    pub fn lattice_scheme(&self) -> (scheme: KeyExchangeScheme)
        ensures
            scheme == self.lattice(),
    {
        match self {
            Configuration::PurePq => KeyExchangeScheme::MlKem(KemLevel::Kem1024),
            Configuration::Hybrid => KeyExchangeScheme::MlKem(KemLevel::Kem768),
        }
    }

    /// The signature scheme of this configuration.
    pub fn sig_scheme(&self) -> (scheme: SignatureScheme)
        ensures
            scheme == self.signature_scheme(),
    {
        match self {
            Configuration::PurePq => SignatureScheme::Dilithium(DilithiumLevel::Level5),
            Configuration::Hybrid => SignatureScheme::Hybrid,
        }
    }

    /// Length of one side's public key material.
    pub fn public_len(&self) -> (len: usize)
        ensures
            len == self.public_key().len(),
    {
        match self {
            Configuration::PurePq => 1568,
            Configuration::Hybrid => 1216,
        }
    }

    /// Length of one side's secret key material.
    pub fn secret_len(&self) -> (len: usize)
        ensures
            len == self.secret_key().len(),
    {
        match self {
            Configuration::PurePq => 3168,
            Configuration::Hybrid => 2432,
        }
    }

    /// Length of the ciphertexts of one encapsulation round.
    pub fn ciphertext_len(&self) -> (len: usize)
        ensures
            len == self.ciphertext().len(),
    {
        match self {
            Configuration::PurePq => 1568,
            Configuration::Hybrid => 2304,
        }
    }

    /// Length of the secrets of one encapsulation round.
    pub fn round_secret_len(&self) -> (len: usize)
        ensures
            len == self.round_secret().len(),
    {
        match self {
            Configuration::PurePq => 32,
            Configuration::Hybrid => 64,
        }
    }

    /// The prologue of this configuration.
    pub fn make_prologue(&self) -> (out: Vec<u8>)
        ensures
            out@ == self.prologue(),
    {
        match self {
            Configuration::PurePq => filled(0xA1, PROLOGUE_LEN),
            Configuration::Hybrid => filled(0xA2, PROLOGUE_LEN),
        }
    }

    /// Generates one side's key material: public part, then secret part.
    pub fn generate(&self, kem: &mut KemSelector) -> (keys: (Vec<u8>, Vec<u8>))
        ensures
            keys.0@ == self.public_key(),
            keys.1@ == self.secret_key(),
            *final(kem) == self.charge(*old(kem)),
    {
        match self {
            Configuration::PurePq => kem.keygen(Some(self.lattice_scheme())),
            Configuration::Hybrid => {
                let (mut pk, mut sk) = kem.keygen(Some(KeyExchangeScheme::Hybrid));
                let (pk_pq, sk_pq) = kem.keygen(Some(self.lattice_scheme()));
                append(&mut pk, pk_pq.as_slice());
                append(&mut sk, sk_pq.as_slice());
                (pk, sk)
            },
        }
    }

    /// Runs one encapsulation round against a peer's public key material:
    /// ciphertexts, then secrets.
    pub fn encapsulate(&self, kem: &mut KemSelector, peer: &[u8]) -> (out: (Vec<u8>, Vec<u8>))
        requires
            peer@.len() == self.public_key().len(),
        ensures
            out.0@ == self.ciphertext(),
            out.1@ == self.round_secret(),
            *final(kem) == self.charge(*old(kem)),
    {
        match self {
            Configuration::PurePq => kem.encapsulate(Some(self.lattice_scheme()), peer),
            Configuration::Hybrid => {
                let classical = copy_range(peer, 0, 32);
                let lattice = copy_range(peer, 32, peer.len());
                let (mut ct, mut ss) = kem.encapsulate(
                    Some(KeyExchangeScheme::Hybrid),
                    classical.as_slice(),
                );
                let (ct_pq, ss_pq) = kem.encapsulate(
                    Some(self.lattice_scheme()),
                    lattice.as_slice(),
                );
                append(&mut ct, ct_pq.as_slice());
                append(&mut ss, ss_pq.as_slice());
                (ct, ss)
            },
        }
    }

    /// Runs one decapsulation round: the secrets that the ciphertexts carry.
    pub fn decapsulate(&self, kem: &mut KemSelector, sk: &[u8], ct: &[u8]) -> (secret: Vec<u8>)
        requires
            sk@.len() == self.secret_key().len(),
            ct@.len() == self.ciphertext().len(),
        ensures
            secret@ == self.round_secret(),
            *final(kem) == self.charge(*old(kem)),
    {
        match self {
            Configuration::PurePq => kem.decapsulate(Some(self.lattice_scheme()), sk, ct),
            Configuration::Hybrid => {
                let sk_classical = copy_range(sk, 0, 32);
                let sk_lattice = copy_range(sk, 32, sk.len());
                let ct_classical = copy_range(ct, 0, 1216);
                let ct_lattice = copy_range(ct, 1216, ct.len());
                let mut ss = kem.decapsulate(
                    Some(KeyExchangeScheme::Hybrid),
                    sk_classical.as_slice(),
                    ct_classical.as_slice(),
                );
                let ss_pq = kem.decapsulate(
                    Some(self.lattice_scheme()),
                    sk_lattice.as_slice(),
                    ct_lattice.as_slice(),
                );
                append(&mut ss, ss_pq.as_slice());
                ss
            },
        }
    }

    /// Length of the long-term public key of an endpoint.
    pub fn static_len(&self) -> (len: usize)
        ensures
            len == self.static_key().len(),
    {
        self.sig_scheme().pk_len()
    }

    /// The long-term public key under which an endpoint signs.
    pub fn static_public(&self) -> (pk: Vec<u8>)
        ensures
            pk@ == self.static_key(),
    {
        match self {
            Configuration::PurePq => filled(crate::pq_shield::DILITHIUM_BYTE, 2592),
            Configuration::Hybrid => filled(crate::pq_shield::DILITHIUM_BYTE, 2624),
        }
    }
}

/// Whether an executable outcome is the one the model gives.
pub open spec fn same_outcome(res: Result<Vec<u8>, ProtocolError>, model: Result<
    Seq<u8>,
    ProtocolError,
>) -> bool {
    match (res, model) {
        (Ok(bytes), Ok(expected)) => bytes@ == expected,
        (Err(e), Err(expected)) => e == expected,
        _ => false,
    }
}

/// One side of one handshake. Owns its ephemeral secrets until the keys are
/// derived or the session is closed, and wipes them then.
#[derive(Debug)]
pub struct HandshakeSession {
    pub config: Configuration,
    pub role: Option<Role>,
    pub phase: Phase,
    pub kem: KemSelector,
    pub sig: SignatureSelector,
    pub transcript: Vec<u8>,
    pub ephemeral_secret: Vec<u8>,
    pub secrets: Vec<u8>,
    pub send_key: Vec<u8>,
    pub recv_key: Vec<u8>,
    pub admission: AdmissionScore,
}

impl View for HandshakeSession {
    type V = SessionView;

    open spec fn view(&self) -> SessionView {
        SessionView {
            config: self.config,
            role: self.role,
            phase: self.phase,
            kem: self.kem,
            sig: self.sig,
            transcript: self.transcript@,
            ephemeral_secret: self.ephemeral_secret@,
            secrets: self.secrets@,
            send_key: self.send_key@,
            recv_key: self.recv_key@,
            admission: self.admission,
        }
    }
}

/// The session that has neither sent nor received anything.
pub open spec fn idle(config: Configuration) -> SessionView {
    SessionView {
        config,
        role: None,
        phase: Phase::Idle,
        kem: KemSelector::fresh(
            match config {
                Configuration::PurePq => KemLevel::Kem1024,
                Configuration::Hybrid => KemLevel::Kem768,
            },
        ),
        sig: SignatureSelector::fresh(DilithiumLevel::Level5),
        transcript: Seq::empty(),
        ephemeral_secret: Seq::empty(),
        secrets: Seq::empty(),
        send_key: Seq::empty(),
        recv_key: Seq::empty(),
        admission: AdmissionScore { bits: 0 },
    }
}

impl HandshakeSession {
    /// A session in phase `Idle`.
    pub fn new(config: Configuration) -> (session: HandshakeSession)
        ensures
            session@ == idle(config),
    {
        let level = match config {
            Configuration::PurePq => KemLevel::Kem1024,
            Configuration::Hybrid => KemLevel::Kem768,
        };
        HandshakeSession {
            config,
            role: None,
            phase: Phase::Idle,
            kem: KemSelector::new(level),
            sig: SignatureSelector::new(DilithiumLevel::Level5),
            transcript: Vec::new(),
            ephemeral_secret: Vec::new(),
            secrets: Vec::new(),
            send_key: Vec::new(),
            recv_key: Vec::new(),
            admission: AdmissionScore::from_bits(0),
        }
    }

    /// Number of calls this session has made into the provider.
    pub fn provider_calls(&self) -> (calls: u64)
        ensures
            calls as int == if self@.kem.calls as int + self@.sig.calls as int > u64::MAX as int {
                u64::MAX as int
            } else {
                self@.kem.calls as int + self@.sig.calls as int
            },
    {
        let kem: u64 = self.kem.call_count();
        let sig: u64 = self.sig.call_count();
        if kem > u64::MAX - sig {
            u64::MAX
        } else {
            kem + sig
        }
    }

    /// The phase this session is in.
    pub fn current_phase(&self) -> (phase: Phase)
        ensures
            phase == self@.phase,
    {
        self.phase
    }

    /// Closes the session as aborted and wipes every secret and key.
    fn abort(&mut self)
        ensures
            final(self)@ == old(self)@.aborted(),
    {
        self.phase = Phase::ClosedAborted;
        wipe(&mut self.ephemeral_secret);
        wipe(&mut self.secrets);
        wipe(&mut self.send_key);
        wipe(&mut self.recv_key);
    }

    /// Closes the session on the caller's request and wipes every secret
    /// and key: as completed if the keys had been derived, else as aborted.
    pub fn close(&mut self)
        ensures
            final(self)@ == old(self)@.shut(),
    {
        if self.phase == Phase::KeyDerived || self.phase == Phase::ClosedCompleted {
            self.phase = Phase::ClosedCompleted;
        } else {
            self.phase = Phase::ClosedAborted;
        }
        wipe(&mut self.ephemeral_secret);
        wipe(&mut self.secrets);
        wipe(&mut self.send_key);
        wipe(&mut self.recv_key);
    }

    /// Opens the exchange: generates the ephemeral key material and yields
    /// the first message.
    pub fn initiator_start(&mut self, score: AdmissionScore) -> (res: Result<
        Vec<u8>,
        ProtocolError,
    >)
        ensures
            !score.admitted() ==> res == Err::<Vec<u8>, ProtocolError>(
                ProtocolError::AdmissionDenied,
            ),
            !score.admitted() ==> final(self)@ == old(self)@,
            final(self)@ == old(self)@.start(score).0,
            same_outcome(res, old(self)@.start(score).1),
    {
        if !score.is_admitted() {
            return Err(ProtocolError::AdmissionDenied);
        }
        if self.phase != Phase::Idle {
            return Err(ProtocolError::SessionBusy);
        }
        let (first, esk) = self.config.generate(&mut self.kem);
        let mut transcript = self.config.make_prologue();
        append(&mut transcript, first.as_slice());
        self.role = Some(Role::Initiator);
        self.phase = Phase::AwaitingPeerEphemeral;
        self.transcript = transcript;
        self.ephemeral_secret = esk;
        self.admission = score;
        Ok(first)
    }

    /// Answers a first message: generates the ephemeral key material,
    /// encapsulates to the initiator, signs everything heard and said, and
    /// yields the second message.
    pub fn responder_respond(&mut self, first: &[u8], score: AdmissionScore) -> (res: Result<
        Vec<u8>,
        ProtocolError,
    >)
        ensures
            !score.admitted() ==> res == Err::<Vec<u8>, ProtocolError>(
                ProtocolError::AdmissionDenied,
            ),
            !score.admitted() ==> final(self)@ == old(self)@,
            final(self)@ == old(self)@.respond(first@, score).0,
            same_outcome(res, old(self)@.respond(first@, score).1),
    {
        if !score.is_admitted() {
            return Err(ProtocolError::AdmissionDenied);
        }
        if self.phase != Phase::Idle {
            return Err(ProtocolError::SessionBusy);
        }
        if first.len() != self.config.public_len() {
            self.abort();
            return Err(ProtocolError::HandshakeFailed);
        }
        let (epk, esk) = self.config.generate(&mut self.kem);
        let (ct, ss) = self.config.encapsulate(&mut self.kem, first);
        let static_pk = self.config.static_public();
        let mut heard = self.config.make_prologue();
        append(&mut heard, first);
        let mut second = epk;
        append(&mut second, ct.as_slice());
        append(&mut second, static_pk.as_slice());
        let ghost opening = heard@;
        let ghost body = second@;
        let mut signed = copy_range(heard.as_slice(), 0, heard.len());
        append(&mut signed, second.as_slice());
        proof {
            assert(signed@ =~= opening + body);
        }
        let sig = self.sig.sign(Some(self.config.sig_scheme()), signed.as_slice());
        append(&mut second, sig.as_slice());
        append(&mut heard, second.as_slice());
        self.role = Some(Role::Responder);
        self.phase = Phase::AwaitingPeerResponse;
        self.transcript = heard;
        self.ephemeral_secret = esk;
        self.secrets = ss;
        self.admission = score;
        Ok(second)
    }
}

/// Whether an executable key pair is the one a session view holds.
pub open spec fn keys_of(keys: TransportKeyPair, session: SessionView) -> bool {
    &&& keys.send@ == session.send_key
    &&& keys.recv@ == session.recv_key
    &&& keys.admission == session.admission
}

impl HandshakeSession {
    /// Takes the second message: checks its length and the responder's
    /// signature over the transcript, decapsulates, encapsulates to the
    /// responder's ephemeral key, installs both transport keys, wipes the
    /// ephemeral secrets, and yields the third message.
    pub fn initiator_finish(&mut self, second: &[u8], score: AdmissionScore) -> (res: Result<
        Vec<u8>,
        ProtocolError,
    >)
        ensures
            !score.admitted() ==> res == Err::<Vec<u8>, ProtocolError>(
                ProtocolError::AdmissionDenied,
            ),
            !score.admitted() ==> final(self)@ == old(self)@,
            final(self)@ == old(self)@.finish(second@, score).0,
            same_outcome(res, old(self)@.finish(second@, score).1),
    {
        if !score.is_admitted() {
            return Err(ProtocolError::AdmissionDenied);
        }
        if self.phase != Phase::AwaitingPeerEphemeral {
            return Err(ProtocolError::SessionBusy);
        }
        let cfg = self.config;
        let scheme = cfg.sig_scheme();
        let pk_len: usize = cfg.public_len();
        let ct_len: usize = cfg.ciphertext_len();
        let body_len: usize = pk_len + ct_len + cfg.static_len();
        if second.len() != body_len + scheme.sig_len() || self.ephemeral_secret.len()
            != cfg.secret_len() {
            self.abort();
            return Err(ProtocolError::HandshakeFailed);
        }
        let mut signed = copy_range(self.transcript.as_slice(), 0, self.transcript.len());
        let mut heard = copy_range(self.transcript.as_slice(), 0, self.transcript.len());
        append(&mut signed, vstd::slice::slice_subrange(second, 0, body_len));
        let ghost before = self.transcript@;
        proof {
            assert(heard@ =~= before);
        }
        let genuine = self.sig.verify(
            Some(scheme),
            signed.as_slice(),
            vstd::slice::slice_subrange(second, body_len, second.len()),
        );
        if !genuine {
            self.abort();
            return Err(ProtocolError::HandshakeFailed);
        }
        let ciphertext = copy_range(second, pk_len, pk_len + ct_len);
        let peer_key = copy_range(second, 0, pk_len);
        let mut secrets = cfg.decapsulate(
            &mut self.kem,
            self.ephemeral_secret.as_slice(),
            ciphertext.as_slice(),
        );
        let (ct_out, ss_out) = cfg.encapsulate(&mut self.kem, peer_key.as_slice());
        append(&mut secrets, ss_out.as_slice());
        let mut third = cfg.static_public();
        append(&mut third, ct_out.as_slice());
        append(&mut heard, second);
        let mut signed_out = copy_range(heard.as_slice(), 0, heard.len());
        append(&mut signed_out, third.as_slice());
        proof {
            assert(signed_out@ =~= before + second@ + cfg.third_body());
        }
        let sig = self.sig.sign(Some(scheme), signed_out.as_slice());
        append(&mut third, sig.as_slice());
        append(&mut heard, third.as_slice());
        let send = derive_transport_key(
            secrets.as_slice(),
            heard.as_slice(),
            LABEL_INITIATOR_TO_RESPONDER,
        );
        let recv = derive_transport_key(
            secrets.as_slice(),
            heard.as_slice(),
            LABEL_RESPONDER_TO_INITIATOR,
        );
        wipe(&mut secrets);
        wipe(&mut self.ephemeral_secret);
        wipe(&mut self.secrets);
        self.phase = Phase::KeyDerived;
        self.transcript = heard;
        self.send_key = send;
        self.recv_key = recv;
        self.admission = score;
        Ok(third)
    }

    /// Takes the third message: checks its length and the initiator's
    /// signature over the transcript, decapsulates with the ephemeral
    /// secret, installs both transport keys, wipes the ephemeral secrets,
    /// and yields the keys.
    pub fn complete(&mut self, third: &[u8], score: AdmissionScore) -> (res: Result<
        TransportKeyPair,
        ProtocolError,
    >)
        ensures
            !score.admitted() ==> res == Err::<TransportKeyPair, ProtocolError>(
                ProtocolError::AdmissionDenied,
            ),
            !score.admitted() ==> final(self)@ == old(self)@,
            final(self)@ == old(self)@.complete(third@, score).0,
            match res {
                Ok(keys) => old(self)@.complete(third@, score).1 is Ok && keys_of(
                    keys,
                    final(self)@,
                ),
                Err(e) => old(self)@.complete(third@, score).1 == Err::<(), ProtocolError>(e),
            },
    {
        if !score.is_admitted() {
            return Err(ProtocolError::AdmissionDenied);
        }
        if self.phase != Phase::AwaitingPeerResponse {
            return Err(ProtocolError::SessionBusy);
        }
        let cfg = self.config;
        let scheme = cfg.sig_scheme();
        let ct_len: usize = cfg.ciphertext_len();
        let key_len: usize = cfg.static_len();
        let body_len: usize = key_len + ct_len;
        if third.len() != body_len + scheme.sig_len() || self.secrets.len()
            != cfg.round_secret_len() || self.ephemeral_secret.len() != cfg.secret_len() {
            self.abort();
            return Err(ProtocolError::HandshakeFailed);
        }
        let mut signed = copy_range(self.transcript.as_slice(), 0, self.transcript.len());
        let mut heard = copy_range(self.transcript.as_slice(), 0, self.transcript.len());
        append(&mut signed, vstd::slice::slice_subrange(third, 0, body_len));
        let ghost before = self.transcript@;
        proof {
            assert(heard@ =~= before);
        }
        let genuine = self.sig.verify(
            Some(scheme),
            signed.as_slice(),
            vstd::slice::slice_subrange(third, body_len, third.len()),
        );
        if !genuine {
            self.abort();
            return Err(ProtocolError::HandshakeFailed);
        }
        let ciphertext = copy_range(third, key_len, body_len);
        let ss = cfg.decapsulate(
            &mut self.kem,
            self.ephemeral_secret.as_slice(),
            ciphertext.as_slice(),
        );
        let mut secrets = copy_range(self.secrets.as_slice(), 0, self.secrets.len());
        append(&mut secrets, ss.as_slice());
        append(&mut heard, third);
        proof {
            assert(secrets@ =~= old(self)@.secrets + cfg.round_secret());
        }
        let send = derive_transport_key(
            secrets.as_slice(),
            heard.as_slice(),
            LABEL_RESPONDER_TO_INITIATOR,
        );
        let recv = derive_transport_key(
            secrets.as_slice(),
            heard.as_slice(),
            LABEL_INITIATOR_TO_RESPONDER,
        );
        wipe(&mut secrets);
        wipe(&mut self.ephemeral_secret);
        wipe(&mut self.secrets);
        let keys = TransportKeyPair {
            send: copy_range(send.as_slice(), 0, send.len()),
            recv: copy_range(recv.as_slice(), 0, recv.len()),
            admission: score,
        };
        proof {
            assert(keys.send@ =~= send@);
            assert(keys.recv@ =~= recv@);
        }
        self.phase = Phase::KeyDerived;
        self.transcript = heard;
        self.send_key = send;
        self.recv_key = recv;
        self.admission = score;
        Ok(keys)
    }

    /// The installed key pair: present exactly while the session is in
    /// phase `KeyDerived`.
    pub fn transport_keys(&self) -> (keys: Option<TransportKeyPair>)
        ensures
            match keys {
                Some(pair) => self@.phase == Phase::KeyDerived && keys_of(pair, self@),
                None => self@.phase != Phase::KeyDerived,
            },
    {
        if self.phase == Phase::KeyDerived {
            let pair = TransportKeyPair {
                send: copy_range(self.send_key.as_slice(), 0, self.send_key.len()),
                recv: copy_range(self.recv_key.as_slice(), 0, self.recv_key.len()),
                admission: self.admission,
            };
            proof {
                assert(pair.send@ =~= self.send_key@);
                assert(pair.recv@ =~= self.recv_key@);
            }
            Some(pair)
        } else {
            None
        }
    }
}

} // verus!
