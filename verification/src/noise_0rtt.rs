//! Resumption: single-use tickets that let a client send protected data on
//! its first flight.
//!
//! A ticket on the wire is the encoding of its four fields followed by the
//! issuer's signature over that encoding. A resumption message is a ticket
//! followed by the sealed early data. The issuer keeps the nonces it has
//! redeemed and refuses each a second time.

use vstd::prelude::*;
use vstd::bytes::lemma_auto_spec_u64_to_from_le_bytes;
use vstd::bytes::spec_u64_from_le_bytes;
use vstd::bytes::spec_u64_to_le_bytes;
use vstd::bytes::u64_from_le_bytes;
use vstd::slice::slice_subrange;
use crate::admission::AdmissionScore;
use crate::bytes::append;
use crate::bytes::copy_range;
use crate::bytes::filled;
use crate::bytes::repeat;
use crate::early_data::open;
use crate::early_data::opened;
use crate::early_data::seal;
use crate::early_data::sealed;
use crate::error::ProtocolError;
use crate::handshake::same_outcome;
use crate::pq_shield::DilithiumLevel;
use crate::pq_shield::SignatureScheme;
use crate::pq_shield::SignatureSelector;

verus! {

/// Length in bytes of the attestation reference that a ticket carries.
pub const ATTESTATION_LEN: usize = 32;

/// Marker byte of the attestation reference.
pub const ATTESTATION_BYTE: u8 = 0xA7;

/// What a resumption ticket binds together.
#[derive(Clone, Debug)]
pub struct ResumptionTicket {
    /// Pre-shared secret material from the handshake that earned the ticket.
    pub psk: Vec<u8>,
    /// Value that makes the ticket redeemable once.
    pub nonce: u64,
    /// Last second, in Unix time, at which the ticket can be redeemed.
    pub expiry: u64,
    /// Reference to the attestation under which the ticket was issued.
    pub attestation: Vec<u8>,
}

/// The mathematical content of a ticket.
pub struct TicketView {
    pub psk: Seq<u8>,
    pub nonce: u64,
    pub expiry: u64,
    pub attestation: Seq<u8>,
}

impl View for ResumptionTicket {
    type V = TicketView;

    open spec fn view(&self) -> TicketView {
        TicketView {
            psk: self.psk@,
            nonce: self.nonce,
            expiry: self.expiry,
            attestation: self.attestation@,
        }
    }
}

/// The encoding of a ticket's fields: each byte string as its length in
/// eight little-endian bytes followed by its bytes, each number as eight
/// little-endian bytes, in the order secret, nonce, expiry, attestation.
pub open spec fn ticket_encoding(psk: Seq<u8>, nonce: u64, expiry: u64, attestation: Seq<u8>) -> Seq<
    u8,
> {
    spec_u64_to_le_bytes(psk.len() as u64) + psk + spec_u64_to_le_bytes(nonce)
        + spec_u64_to_le_bytes(expiry) + spec_u64_to_le_bytes(attestation.len() as u64)
        + attestation
}

/// The number that the eight bytes of `bytes` from index `at` encode.
pub open spec fn number_at(bytes: Seq<u8>, at: int) -> u64 {
    spec_u64_from_le_bytes(bytes.subrange(at, at + 8))
}

/// The ticket that `bytes` begin with and the length of its encoding, if
/// they begin with one. Bytes after the encoding are not looked at.
pub open spec fn decoded(bytes: Seq<u8>) -> Option<(TicketView, nat)> {
    if bytes.len() < 8 {
        None
    } else {
        let n = number_at(bytes, 0) as int;
        if bytes.len() < 32 + n {
            None
        } else {
            let m = number_at(bytes, 24 + n) as int;
            if bytes.len() < 32 + n + m {
                None
            } else {
                Some(
                    (
                        TicketView {
                            psk: bytes.subrange(8, 8 + n),
                            nonce: number_at(bytes, 8 + n),
                            expiry: number_at(bytes, 16 + n),
                            attestation: bytes.subrange(32 + n, 32 + n + m),
                        },
                        (32 + n + m) as nat,
                    ),
                )
            }
        }
    }
}

/// Decoding inverts encoding, whatever follows the encoding.
pub proof fn lemma_decode_inverts_encode(ticket: TicketView, rest: Seq<u8>)
    requires
        ticket.psk.len() <= u64::MAX,
        ticket.attestation.len() <= u64::MAX,
    ensures
        decoded(
            ticket_encoding(ticket.psk, ticket.nonce, ticket.expiry, ticket.attestation) + rest,
        ) == Some(
            (
                ticket,
                ticket_encoding(ticket.psk, ticket.nonce, ticket.expiry, ticket.attestation).len(),
            ),
        ),
{
    lemma_auto_spec_u64_to_from_le_bytes();
    let n = ticket.psk.len() as int;
    let m = ticket.attestation.len() as int;
    let a = spec_u64_to_le_bytes(ticket.psk.len() as u64);
    let b = spec_u64_to_le_bytes(ticket.nonce);
    let c = spec_u64_to_le_bytes(ticket.expiry);
    let d = spec_u64_to_le_bytes(ticket.attestation.len() as u64);
    let bytes = a + ticket.psk + b + c + d + ticket.attestation + rest;
    assert(bytes.subrange(0, 8) =~= a);
    assert(bytes.subrange(8, 8 + n) =~= ticket.psk);
    assert(bytes.subrange(8 + n, 16 + n) =~= b);
    assert(bytes.subrange(16 + n, 24 + n) =~= c);
    assert(bytes.subrange(24 + n, 32 + n) =~= d);
    assert(bytes.subrange(32 + n, 32 + n + m) =~= ticket.attestation);
}

/// Reads the ticket that `bytes` begin with.
pub fn parse_ticket(bytes: &[u8]) -> (res: Option<(ResumptionTicket, usize)>)
    ensures
        match res {
            Some(found) => decoded(bytes@) == Some((found.0@, found.1 as nat)),
            None => decoded(bytes@) is None,
        },
{
    let len: usize = bytes.len();
    if len < 8 {
        return None;
    }
    let n64: u64 = u64_from_le_bytes(slice_subrange(bytes, 0, 8));
    if len < 32 || n64 > (len - 32) as u64 {
        return None;
    }
    let n: usize = n64 as usize;
    let nonce: u64 = u64_from_le_bytes(slice_subrange(bytes, 8 + n, 16 + n));
    let expiry: u64 = u64_from_le_bytes(slice_subrange(bytes, 16 + n, 24 + n));
    let m64: u64 = u64_from_le_bytes(slice_subrange(bytes, 24 + n, 32 + n));
    if m64 > (len - 32 - n) as u64 {
        return None;
    }
    let m: usize = m64 as usize;
    let ticket = ResumptionTicket {
        psk: copy_range(bytes, 8, 8 + n),
        nonce,
        expiry,
        attestation: copy_range(bytes, 32 + n, 32 + n + m),
    };
    Some((ticket, 32 + n + m))
}

/// Encodes the four fields of a ticket by a call of `bincode::serialize` on
/// the tuple of them. That function writes with fixed-width little-endian
/// integers and no size limit: a byte vector as its length in eight bytes
/// followed by its bytes, a number as eight bytes, a tuple as its members
/// in order with nothing between them. With no limit set and every length
/// known, it has no failing path for these types, so the contract claims a
/// result and that it is exactly this layout.
#[verifier::external_body]
fn encode_fields(
    psk: &Vec<u8>,
    nonce: u64,
    expiry: u64,
    attestation: &Vec<u8>,
) -> (out: Option<Vec<u8>>)
    ensures
        out is Some,
        out->Some_0@ == ticket_encoding(psk@, nonce, expiry, attestation@),
{
    bincode::serialize(&(psk, nonce, expiry, attestation)).ok()
}

/// The signature scheme of tickets.
pub open spec fn ticket_scheme() -> SignatureScheme {
    SignatureScheme::Dilithium(DilithiumLevel::Level5)
}

/// The attestation reference that issued tickets carry.
pub open spec fn attestation() -> Seq<u8> {
    repeat(ATTESTATION_BYTE, ATTESTATION_LEN as nat)
}

/// A ticket on the wire: the encoding of its fields, then the issuer's
/// signature over the encoding.
pub open spec fn ticket_wire(psk: Seq<u8>, nonce: u64, expiry: u64) -> Seq<u8> {
    let encoding = ticket_encoding(psk, nonce, expiry, attestation());
    encoding + ticket_scheme().signature(encoding)
}

/// The resumption message that a client makes of a ticket and its early
/// data: the ticket, then the data sealed under the ticket's secret.
pub open spec fn early_message(ticket: Seq<u8>, early_data: Seq<u8>, score: AdmissionScore) -> Result<
    Seq<u8>,
    ProtocolError,
> {
    if !score.admitted() {
        Err(ProtocolError::AdmissionDenied)
    } else {
        match decoded(ticket) {
            None => Err(ProtocolError::HandshakeFailed),
            Some((fields, used)) => if ticket.len() != used + ticket_scheme().signature_len() {
                Err(ProtocolError::HandshakeFailed)
            } else {
                Ok(ticket + sealed(fields.psk, fields.nonce, early_data))
            },
        }
    }
}

/// A nonce that was redeemed, with the expiry of the ticket that carried it.
#[derive(Clone, Copy, Debug)]
pub struct ConsumedNonce {
    pub nonce: u64,
    pub expiry: u64,
}

/// Whether `nonce` is among the redeemed ones.
pub open spec fn holds(consumed: Seq<ConsumedNonce>, nonce: u64) -> bool {
    exists|i: int| 0 <= i < consumed.len() && (#[trigger] consumed[i]).nonce == nonce
}

/// The redeemed nonces whose tickets could still be presented at `now`.
pub open spec fn unexpired(consumed: Seq<ConsumedNonce>, now: u64) -> Seq<ConsumedNonce>
    decreases consumed.len(),
{
    if consumed.len() == 0 {
        consumed
    } else {
        let earlier = unexpired(consumed.drop_last(), now);
        if consumed.last().expiry >= now {
            earlier.push(consumed.last())
        } else {
            earlier
        }
    }
}

/// The mathematical content of a resumption endpoint.
pub struct ResumptionView {
    pub sig: SignatureSelector,
    pub consumed: Seq<ConsumedNonce>,
}

impl ResumptionView {
    /// This endpoint after one more signature call.
    pub open spec fn signed(self) -> ResumptionView {
        ResumptionView { sig: self.sig.counted(), ..self }
    }

    /// This endpoint after issuing a ticket, with the ticket.
    pub open spec fn issued(self, psk: Seq<u8>, score: AdmissionScore, nonce: u64, expiry: u64) -> (
        ResumptionView,
        Result<Seq<u8>, ProtocolError>,
    ) {
        if !score.admitted() {
            (self, Err(ProtocolError::AdmissionDenied))
        } else {
            (self.signed(), Ok(ticket_wire(psk, nonce, expiry)))
        }
    }

    /// This endpoint after being presented a resumption message at `now`,
    /// with the early data or the reason for refusing it.
    pub open spec fn accepted(self, message: Seq<u8>, now: u64) -> (ResumptionView, Result<
        Seq<u8>,
        ProtocolError,
    >) {
        let sig_len = ticket_scheme().signature_len();
        match decoded(message) {
            None => (self, Err(ProtocolError::HandshakeFailed)),
            Some((fields, used)) => if message.len() < used + sig_len {
                (self, Err(ProtocolError::HandshakeFailed))
            } else if message.subrange(used as int, (used + sig_len) as int)
                != ticket_scheme().signature(message.subrange(0, used as int)) {
                (self.signed(), Err(ProtocolError::HandshakeFailed))
            } else if now > fields.expiry {
                (self.signed(), Err(ProtocolError::TicketExpired))
            } else if holds(self.consumed, fields.nonce) {
                (self.signed(), Err(ProtocolError::ReplayDetected))
            } else {
                match opened(
                    fields.psk,
                    fields.nonce,
                    message.subrange((used + sig_len) as int, message.len() as int),
                ) {
                    None => (self.signed(), Err(ProtocolError::HandshakeFailed)),
                    Some(data) => (
                        ResumptionView {
                            sig: self.sig.counted(),
                            consumed: self.consumed.push(
                                ConsumedNonce { nonce: fields.nonce, expiry: fields.expiry },
                            ),
                        },
                        Ok(data),
                    ),
                }
            },
        }
    }

    /// This endpoint after forgetting the nonces of tickets expired before `now`.
    pub open spec fn pruned(self, now: u64) -> ResumptionView {
        ResumptionView { consumed: unexpired(self.consumed, now), ..self }
    }
}

/// An endpoint that issues and redeems resumption tickets.
#[derive(Debug)]
pub struct ZeroRttNoise {
    pub sig: SignatureSelector,
    pub consumed: Vec<ConsumedNonce>,
}

impl View for ZeroRttNoise {
    type V = ResumptionView;

    open spec fn view(&self) -> ResumptionView {
        ResumptionView { sig: self.sig, consumed: self.consumed@ }
    }
}

impl ZeroRttNoise {
    /// An endpoint that has redeemed nothing and made no provider call.
    pub fn new() -> (noise: ZeroRttNoise)
        ensures
            noise@ == (ResumptionView {
                sig: SignatureSelector::fresh(DilithiumLevel::Level5),
                consumed: Seq::empty(),
            }),
    {
        ZeroRttNoise { sig: SignatureSelector::new(DilithiumLevel::Level5), consumed: Vec::new() }
    }

    /// Issues a ticket that binds `psk`, `nonce` and `expiry`. A refused
    /// score changes nothing. The caller draws `nonce` from a source that
    /// never repeats.
    pub fn issue_ticket(&mut self, psk: Vec<u8>, score: AdmissionScore, nonce: u64, expiry: u64) -> (res:
        Result<Vec<u8>, ProtocolError>)
        ensures
            !score.admitted() ==> res == Err::<Vec<u8>, ProtocolError>(
                ProtocolError::AdmissionDenied,
            ),
            !score.admitted() ==> final(self)@ == old(self)@,
            final(self)@ == old(self)@.issued(psk@, score, nonce, expiry).0,
            same_outcome(res, old(self)@.issued(psk@, score, nonce, expiry).1),
    {
        if !score.is_admitted() {
            return Err(ProtocolError::AdmissionDenied);
        }
        let reference = filled(ATTESTATION_BYTE, ATTESTATION_LEN);
        match encode_fields(&psk, nonce, expiry, &reference) {
            Some(encoding) => {
                let mut ticket = encoding;
                let sig = self.sig.sign(
                    Some(SignatureScheme::Dilithium(DilithiumLevel::Level5)),
                    ticket.as_slice(),
                );
                append(&mut ticket, sig.as_slice());
                Ok(ticket)
            },
            None => Err(ProtocolError::HandshakeFailed),
        }
    }

    /// Makes a resumption message of a ticket and early data: the ticket,
    /// then the data sealed under the ticket's secret. Fails with
    /// `HandshakeFailed` on bytes that are not one whole ticket.
    pub fn client_0rtt(&self, ticket: &[u8], early_data: &[u8], score: AdmissionScore) -> (res: Result<
        Vec<u8>,
        ProtocolError,
    >)
        ensures
            !score.admitted() ==> res == Err::<Vec<u8>, ProtocolError>(
                ProtocolError::AdmissionDenied,
            ),
            same_outcome(res, early_message(ticket@, early_data@, score)),
    {
        if !score.is_admitted() {
            return Err(ProtocolError::AdmissionDenied);
        }
        match parse_ticket(ticket) {
            None => Err(ProtocolError::HandshakeFailed),
            Some((fields, used)) => {
                let sig_len: usize = SignatureScheme::Dilithium(DilithiumLevel::Level5).sig_len();
                if ticket.len() - used != sig_len {
                    return Err(ProtocolError::HandshakeFailed);
                }
                let protected = seal(fields.psk.as_slice(), fields.nonce, early_data);
                let mut message = copy_range(ticket, 0, ticket.len());
                append(&mut message, protected.as_slice());
                proof {
                    assert(message@ =~= ticket@ + protected@);
                }
                Ok(message)
            },
        }
    }

    /// Whether `nonce` is among the redeemed ones.
    pub fn is_consumed(&self, nonce: u64) -> (found: bool)
        ensures
            found == holds(self@.consumed, nonce),
    {
        let mut i: usize = 0;
        while i < self.consumed.len()
            invariant
                i <= self.consumed@.len(),
                forall|k: int| 0 <= k < i ==> (#[trigger] self.consumed@[k]).nonce != nonce,
            decreases self.consumed@.len() - i,
        {
            if self.consumed[i].nonce == nonce {
                return true;
            }
            i = i + 1;
        }
        false
    }

    /// Redeems a resumption message at time `current_time` and yields the
    /// early data. The checks run in this order: the bytes hold a whole
    /// ticket and a signature; the signature is the issuer's over the
    /// ticket; the ticket has not expired; its nonce has not been redeemed;
    /// the sealed data opens. Only then is the nonce recorded. Holding the
    /// endpoint exclusively for the call makes the check and the record one
    /// step.
    pub fn server_accept_0rtt(&mut self, msg: &[u8], current_time: u64) -> (res: Result<
        Vec<u8>,
        ProtocolError,
    >)
        ensures
            final(self)@ == old(self)@.accepted(msg@, current_time).0,
            same_outcome(res, old(self)@.accepted(msg@, current_time).1),
    {
        match parse_ticket(msg) {
            None => Err(ProtocolError::HandshakeFailed),
            Some((fields, used)) => {
                let scheme = SignatureScheme::Dilithium(DilithiumLevel::Level5);
                let sig_len: usize = scheme.sig_len();
                if msg.len() - used < sig_len {
                    return Err(ProtocolError::HandshakeFailed);
                }
                let genuine = self.sig.verify(
                    Some(scheme),
                    slice_subrange(msg, 0, used),
                    slice_subrange(msg, used, used + sig_len),
                );
                if !genuine {
                    return Err(ProtocolError::HandshakeFailed);
                }
                if current_time > fields.expiry {
                    return Err(ProtocolError::TicketExpired);
                }
                if self.is_consumed(fields.nonce) {
                    return Err(ProtocolError::ReplayDetected);
                }
                match open(
                    fields.psk.as_slice(),
                    fields.nonce,
                    slice_subrange(msg, used + sig_len, msg.len()),
                ) {
                    None => Err(ProtocolError::HandshakeFailed),
                    Some(data) => {
                        self.consumed.push(
                            ConsumedNonce { nonce: fields.nonce, expiry: fields.expiry },
                        );
                        Ok(data)
                    },
                }
            },
        }
    }

    /// Forgets the nonces of tickets that expired before `current_time`.
    /// Such a ticket is refused as expired from then on, so forgetting its
    /// nonce admits nothing.
    pub fn prune(&mut self, current_time: u64)
        ensures
            final(self)@ == old(self)@.pruned(current_time),
    {
        let mut kept: Vec<ConsumedNonce> = Vec::new();
        let mut i: usize = 0;
        while i < self.consumed.len()
            invariant
                i <= self.consumed@.len(),
                kept@ == unexpired(self.consumed@.take(i as int), current_time),
                *self == *old(self),
            decreases self.consumed@.len() - i,
        {
            let entry = self.consumed[i];
            proof {
                assert(self.consumed@.take(i + 1).drop_last() =~= self.consumed@.take(i as int));
            }
            if entry.expiry >= current_time {
                kept.push(entry);
            }
            i = i + 1;
        }
        proof {
            assert(self.consumed@.take(i as int) =~= self.consumed@);
        }
        self.consumed = kept;
    }
}

} // verus!
