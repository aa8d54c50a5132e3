//! The connection that a completed handshake protects: its transport keys,
//! its opening packets, and the parameters it announces.

use vstd::prelude::*;
use vstd::bytes::spec_u64_to_le_bytes;
use vstd::bytes::u64_to_le_bytes;
use crate::admission::AdmissionScore;
use crate::admission::THRESHOLD_BITS;
use crate::bytes::append;
use crate::bytes::filled;
use crate::bytes::repeat;
use crate::error::ProtocolError;
use crate::handshake::same_outcome;
use crate::handshake::wipe;
use crate::handshake::TransportKeyPair;
use crate::pq_kem::KemLevel;
use crate::pq_kem::KemSelector;
use crate::pq_kem::KeyExchangeScheme;

verus! {

/// Length in bytes of the padding of an opening packet.
pub const INITIAL_PADDING_LEN: usize = 1200;

/// Marker byte of the padding of an opening packet.
pub const INITIAL_BYTE: u8 = 0x1A;

/// Length in bytes of the answer to an opening packet.
pub const HANDSHAKE_PACKET_LEN: usize = 2400;

/// Marker byte of the answer to an opening packet.
pub const HANDSHAKE_BYTE: u8 = 0x2B;

/// Identifier of the first stream of a connection.
pub const FIRST_STREAM_ID: u64 = 0;

/// The scheme that protects opening packets.
pub open spec fn initial_scheme() -> KeyExchangeScheme {
    KeyExchangeScheme::MlKem(KemLevel::Kem1024)
}

/// The opening packet: a ciphertext for the server, the padding, and the
/// resumption ticket if the client holds one.
pub open spec fn initial_packet(ticket: Option<Seq<u8>>) -> Seq<u8> {
    let opening = initial_scheme().ciphertext() + repeat(INITIAL_BYTE, INITIAL_PADDING_LEN as nat);
    match ticket {
        Some(bytes) => opening + bytes,
        None => opening,
    }
}

/// The mathematical content of a connection.
pub struct QuicView {
    pub kem: KemSelector,
    pub send_key: Seq<u8>,
    pub recv_key: Seq<u8>,
}

impl QuicView {
    /// This connection after one more provider call.
    pub open spec fn counted(self) -> QuicView {
        QuicView { kem: self.kem.counted(), ..self }
    }

    /// This connection after a client opened it, with the opening packet.
    pub open spec fn connected(
        self,
        server_pk: Seq<u8>,
        score: AdmissionScore,
        ticket: Option<Seq<u8>>,
    ) -> (QuicView, Result<Seq<u8>, ProtocolError>) {
        if !score.admitted() {
            (self, Err(ProtocolError::AdmissionDenied))
        } else if server_pk.len() != initial_scheme().public_key_len() {
            (self, Err(ProtocolError::HandshakeFailed))
        } else {
            (self.counted(), Ok(initial_packet(ticket)))
        }
    }

    /// This connection after a server took an opening packet, with its answer.
    pub open spec fn answered(self, initial: Seq<u8>, score: AdmissionScore) -> (QuicView, Result<
        Seq<u8>,
        ProtocolError,
    >) {
        if !score.admitted() {
            (self, Err(ProtocolError::AdmissionDenied))
        } else if initial.len() < initial_scheme().ciphertext_len() + INITIAL_PADDING_LEN {
            (self, Err(ProtocolError::HandshakeFailed))
        } else {
            (self.counted(), Ok(repeat(HANDSHAKE_BYTE, HANDSHAKE_PACKET_LEN as nat)))
        }
    }
}

/// The connection without keys that has made no provider call.
pub open spec fn unkeyed() -> QuicView {
    QuicView {
        kem: KemSelector::fresh(KemLevel::Kem1024),
        send_key: Seq::empty(),
        recv_key: Seq::empty(),
    }
}

/// One end of a connection.
#[derive(Debug)]
pub struct QuicPq {
    pub kem: KemSelector,
    pub send_key: Vec<u8>,
    pub recv_key: Vec<u8>,
}

impl View for QuicPq {
    type V = QuicView;

    open spec fn view(&self) -> QuicView {
        QuicView { kem: self.kem, send_key: self.send_key@, recv_key: self.recv_key@ }
    }
}

impl QuicPq {
    /// A connection without keys that has made no provider call.
    pub fn new() -> (quic: QuicPq)
        ensures
            quic@ == unkeyed(),
    {
        QuicPq { kem: KemSelector::new(KemLevel::Kem1024), send_key: Vec::new(), recv_key: Vec::new() }
    }

    /// Installs the keys that a handshake derived, wiping the ones held before.
    pub fn install_keys(&mut self, keys: TransportKeyPair)
        ensures
            final(self)@ == (QuicView { send_key: keys.send@, recv_key: keys.recv@, ..old(self)@ }),
    {
        wipe(&mut self.send_key);
        wipe(&mut self.recv_key);
        self.send_key = keys.send;
        self.recv_key = keys.recv;
    }

    /// Opens a connection to the holder of `server_pk` and yields the
    /// opening packet. A refused score changes nothing; a server key of the
    /// wrong length fails before any provider call.
    pub fn client_connect(
        &mut self,
        server_pk: &[u8],
        score: AdmissionScore,
        ticket: Option<&[u8]>,
    ) -> (res: Result<Vec<u8>, ProtocolError>)
        ensures
            !score.admitted() ==> res == Err::<Vec<u8>, ProtocolError>(
                ProtocolError::AdmissionDenied,
            ),
            !score.admitted() ==> final(self)@ == old(self)@,
            final(self)@ == old(self)@.connected(
                server_pk@,
                score,
                match ticket {
                    Some(bytes) => Some(bytes@),
                    None => None,
                },
            ).0,
            same_outcome(
                res,
                old(self)@.connected(
                    server_pk@,
                    score,
                    match ticket {
                        Some(bytes) => Some(bytes@),
                        None => None,
                    },
                ).1,
            ),
    {
        if !score.is_admitted() {
            return Err(ProtocolError::AdmissionDenied);
        }
        let scheme = KeyExchangeScheme::MlKem(KemLevel::Kem1024);
        if server_pk.len() != scheme.pk_len() {
            return Err(ProtocolError::HandshakeFailed);
        }
        let (mut packet, mut secret) = self.kem.encapsulate(Some(scheme), server_pk);
        wipe(&mut secret);
        let padding = filled(INITIAL_BYTE, INITIAL_PADDING_LEN);
        append(&mut packet, padding.as_slice());
        match ticket {
            Some(bytes) => {
                append(&mut packet, bytes);
            },
            None => {},
        }
        Ok(packet)
    }

    /// Takes an opening packet and yields the answer. A refused score
    /// changes nothing; a packet too short to hold a ciphertext and the
    /// padding fails before any provider call.
    pub fn server_accept(&mut self, initial: &[u8], score: AdmissionScore) -> (res: Result<
        Vec<u8>,
        ProtocolError,
    >)
        ensures
            !score.admitted() ==> res == Err::<Vec<u8>, ProtocolError>(
                ProtocolError::AdmissionDenied,
            ),
            !score.admitted() ==> final(self)@ == old(self)@,
            final(self)@ == old(self)@.answered(initial@, score).0,
            same_outcome(res, old(self)@.answered(initial@, score).1),
    {
        if !score.is_admitted() {
            return Err(ProtocolError::AdmissionDenied);
        }
        let scheme = KeyExchangeScheme::MlKem(KemLevel::Kem1024);
        let ct_len: usize = scheme.ct_len();
        if initial.len() < ct_len + INITIAL_PADDING_LEN {
            return Err(ProtocolError::HandshakeFailed);
        }
        let static_sk = filled(crate::pq_kem::MLKEM_KEY_BYTE, scheme.sk_len());
        let mut secret = self.kem.decapsulate(
            Some(scheme),
            static_sk.as_slice(),
            vstd::slice::slice_subrange(initial, 0, ct_len),
        );
        wipe(&mut secret);
        Ok(filled(HANDSHAKE_BYTE, HANDSHAKE_PACKET_LEN))
    }

    /// The identifier of the connection's first stream.
    pub fn open_stream(&self) -> (res: Result<u64, ProtocolError>)
        ensures
            res == Ok::<u64, ProtocolError>(FIRST_STREAM_ID),
    {
        Ok(FIRST_STREAM_ID)
    }

    /// The parameters a connection announces: the admission threshold, as
    /// the eight little-endian bytes of its bit pattern.
    pub fn transport_params(&self) -> (params: Vec<u8>)
        ensures
            params@ == spec_u64_to_le_bytes(THRESHOLD_BITS),
    {
        u64_to_le_bytes(THRESHOLD_BITS)
    }
}

} // verus!
