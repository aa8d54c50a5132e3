//! The hybrid handshake: a session of the shared engine fixed to the
//! hybrid configuration.

use vstd::prelude::*;
use crate::admission::AdmissionScore;
use crate::error::ProtocolError;
use crate::handshake::idle;
use crate::handshake::keys_of;
use crate::handshake::same_outcome;
use crate::handshake::Configuration;
use crate::handshake::HandshakeSession;
use crate::handshake::Phase;
use crate::handshake::SessionView;
use crate::handshake::TransportKeyPair;

verus! {

/// One side of one hybrid handshake.
#[derive(Debug)]
pub struct NoiseHybrid {
    pub session: HandshakeSession,
}

impl View for NoiseHybrid {
    type V = SessionView;

    open spec fn view(&self) -> SessionView {
        self.session@
    }
}

impl NoiseHybrid {
    /// An idle session of the hybrid configuration.
    pub fn new() -> (noise: NoiseHybrid)
        ensures
            noise@ == idle(Configuration::Hybrid),
    {
        NoiseHybrid { session: HandshakeSession::new(Configuration::Hybrid) }
    }

    /// Opens the exchange and yields the first message. A refused score
    /// changes nothing; a session that is not idle is busy.
    pub fn initiator_handshake(&mut self, score: AdmissionScore) -> (res: Result<
        Vec<u8>,
        ProtocolError,
    >)
        ensures
            !score.admitted() ==> res == Err::<Vec<u8>, ProtocolError>(
                ProtocolError::AdmissionDenied,
            ),
            !score.admitted() ==> final(self)@ == old(self)@,
            final(self)@ == old(self)@.start(score).0,
            same_outcome(res, old(self)@.start(score).1),
    {
        self.session.initiator_start(score)
    }

    /// Answers a first message with the second. A first message of the
    /// wrong length aborts the session.
    pub fn responder_handshake(&mut self, msg1: &[u8], score: AdmissionScore) -> (res: Result<
        Vec<u8>,
        ProtocolError,
    >)
        ensures
            !score.admitted() ==> res == Err::<Vec<u8>, ProtocolError>(
                ProtocolError::AdmissionDenied,
            ),
            !score.admitted() ==> final(self)@ == old(self)@,
            final(self)@ == old(self)@.respond(msg1@, score).0,
            same_outcome(res, old(self)@.respond(msg1@, score).1),
    {
        self.session.responder_respond(msg1, score)
    }

    /// Takes the second message, installs the transport keys and yields the
    /// third message. A second message of the wrong length, or one whose
    /// signature does not cover the transcript held here, aborts the session.
    pub fn initiator_final(&mut self, msg2: &[u8], score: AdmissionScore) -> (res: Result<
        Vec<u8>,
        ProtocolError,
    >)
        ensures
            !score.admitted() ==> res == Err::<Vec<u8>, ProtocolError>(
                ProtocolError::AdmissionDenied,
            ),
            !score.admitted() ==> final(self)@ == old(self)@,
            final(self)@ == old(self)@.finish(msg2@, score).0,
            same_outcome(res, old(self)@.finish(msg2@, score).1),
    {
        self.session.initiator_finish(msg2, score)
    }

    /// Takes the third message and installs the transport keys. A third
    /// message of the wrong length, or one whose signature does not cover
    /// the transcript held here, aborts the session.
    pub fn responder_complete(&mut self, msg3: &[u8], score: AdmissionScore) -> (res: Result<
        TransportKeyPair,
        ProtocolError,
    >)
        ensures
            !score.admitted() ==> res == Err::<TransportKeyPair, ProtocolError>(
                ProtocolError::AdmissionDenied,
            ),
            !score.admitted() ==> final(self)@ == old(self)@,
            final(self)@ == old(self)@.complete(msg3@, score).0,
            match res {
                Ok(keys) => old(self)@.complete(msg3@, score).1 is Ok && keys_of(
                    keys,
                    final(self)@,
                ),
                Err(e) => old(self)@.complete(msg3@, score).1 == Err::<(), ProtocolError>(e),
            },
    {
        self.session.complete(msg3, score)
    }

    /// The installed key pair: present exactly while the session is in
    /// phase `KeyDerived`.
    pub fn transport_keys(&self) -> (keys: Option<TransportKeyPair>)
        ensures
            match keys {
                Some(pair) => self@.phase == Phase::KeyDerived && keys_of(pair, self@),
                None => self@.phase != Phase::KeyDerived,
            },
    {
        self.session.transport_keys()
    }

    /// Closes the session and wipes every secret and key.
    pub fn close(&mut self)
        ensures
            final(self)@ == old(self)@.shut(),
    {
        self.session.close()
    }

    /// Number of calls this session has made into the provider.
    pub fn provider_calls(&self) -> (calls: u64)
        ensures
            calls as int == if self@.kem.calls as int + self@.sig.calls as int > u64::MAX as int {
                u64::MAX as int
            } else {
                self@.kem.calls as int + self@.sig.calls as int
            },
    {
        self.session.provider_calls()
    }
}

} // verus!
