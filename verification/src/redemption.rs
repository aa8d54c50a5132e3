//! What holds of every ticket: an honest message is redeemed once, a second
//! presentation is refused as a replay, an expired ticket is refused as
//! expired, and neither later redemptions nor pruning bring a nonce back.

use vstd::prelude::*;
use crate::admission::AdmissionScore;
use crate::early_data::lemma_open_inverts_seal;
use crate::early_data::sealed;
use crate::error::ProtocolError;
use crate::noise_0rtt::attestation;
use crate::noise_0rtt::decoded;
use crate::noise_0rtt::early_message;
use crate::noise_0rtt::holds;
use crate::noise_0rtt::lemma_decode_inverts_encode;
use crate::noise_0rtt::ticket_encoding;
use crate::noise_0rtt::ticket_scheme;
use crate::noise_0rtt::ticket_wire;
use crate::noise_0rtt::unexpired;
use crate::noise_0rtt::ConsumedNonce;
use crate::noise_0rtt::ResumptionView;
use crate::noise_0rtt::TicketView;

verus! {

/// The resumption message that an issued ticket and early data make.
pub open spec fn honest_message(psk: Seq<u8>, nonce: u64, expiry: u64, data: Seq<u8>) -> Seq<u8> {
    ticket_wire(psk, nonce, expiry) + sealed(psk, nonce, data)
}

/// How an honest message reads: its ticket decodes to the fields it was
/// issued with, its signature is genuine, and the rest is the sealed data.
proof fn lemma_honest_message_reads(psk: Seq<u8>, nonce: u64, expiry: u64, data: Seq<u8>)
    requires
        psk.len() <= u64::MAX,
    ensures
        ({
            let message = honest_message(psk, nonce, expiry, data);
            let encoding = ticket_encoding(psk, nonce, expiry, attestation());
            let used = encoding.len() as int;
            let sig_len = ticket_scheme().signature_len() as int;
            &&& decoded(message) == Some(
                (TicketView { psk, nonce, expiry, attestation: attestation() }, encoding.len()),
            )
            &&& decoded(ticket_wire(psk, nonce, expiry)) == decoded(message)
            &&& ticket_wire(psk, nonce, expiry).len() == used + sig_len
            &&& message.len() >= used + sig_len
            &&& message.subrange(0, used) == encoding
            &&& message.subrange(used, used + sig_len) == ticket_scheme().signature(encoding)
            &&& message.subrange(used + sig_len, message.len() as int) == sealed(psk, nonce, data)
        }),
{
    let encoding = ticket_encoding(psk, nonce, expiry, attestation());
    let sig = ticket_scheme().signature(encoding);
    let message = honest_message(psk, nonce, expiry, data);
    let ticket = TicketView { psk, nonce, expiry, attestation: attestation() };
    assert(message =~= encoding + (sig + sealed(psk, nonce, data)));
    lemma_decode_inverts_encode(ticket, sig + sealed(psk, nonce, data));
    lemma_decode_inverts_encode(ticket, sig);
}

/// A client with an admitted score makes the honest message of an issued
/// ticket and its data.
pub proof fn lemma_client_makes_honest_message(
    psk: Seq<u8>,
    nonce: u64,
    expiry: u64,
    data: Seq<u8>,
    score: AdmissionScore,
)
    requires
        psk.len() <= u64::MAX,
        score.admitted(),
    ensures
        early_message(ticket_wire(psk, nonce, expiry), data, score) == Ok::<
            Seq<u8>,
            ProtocolError,
        >(honest_message(psk, nonce, expiry, data)),
{
    lemma_honest_message_reads(psk, nonce, expiry, data);
}

/// An honest message whose ticket has not expired and whose nonce has not
/// been redeemed yields the early data, and the nonce is recorded.
pub proof fn lemma_first_redemption_succeeds(
    issuer: ResumptionView,
    psk: Seq<u8>,
    nonce: u64,
    expiry: u64,
    data: Seq<u8>,
    now: u64,
)
    requires
        psk.len() <= u64::MAX,
        now <= expiry,
        !holds(issuer.consumed, nonce),
    ensures
        issuer.accepted(honest_message(psk, nonce, expiry, data), now).1 == Ok::<
            Seq<u8>,
            ProtocolError,
        >(data),
        issuer.accepted(honest_message(psk, nonce, expiry, data), now).0.consumed
            == issuer.consumed.push(ConsumedNonce { nonce, expiry }),
        holds(issuer.accepted(honest_message(psk, nonce, expiry, data), now).0.consumed, nonce),
{
    lemma_honest_message_reads(psk, nonce, expiry, data);
    lemma_open_inverts_seal(psk, nonce, data);
    let after = issuer.consumed.push(ConsumedNonce { nonce, expiry });
    assert(after[issuer.consumed.len() as int].nonce == nonce);
}

/// An honest message presented after its ticket's expiry is refused as
/// expired, whether or not its nonce was ever redeemed, and no nonce is
/// recorded.
pub proof fn lemma_expired_ticket_is_refused(
    issuer: ResumptionView,
    psk: Seq<u8>,
    nonce: u64,
    expiry: u64,
    data: Seq<u8>,
    now: u64,
)
    requires
        psk.len() <= u64::MAX,
        now > expiry,
    ensures
        issuer.accepted(honest_message(psk, nonce, expiry, data), now).1 == Err::<
            Seq<u8>,
            ProtocolError,
        >(ProtocolError::TicketExpired),
        issuer.accepted(honest_message(psk, nonce, expiry, data), now).0.consumed
            == issuer.consumed,
{
    lemma_honest_message_reads(psk, nonce, expiry, data);
}

/// An honest message whose nonce has been redeemed is refused as a replay
/// while its ticket has not expired, and no nonce is recorded.
pub proof fn lemma_redeemed_nonce_is_replay(
    issuer: ResumptionView,
    psk: Seq<u8>,
    nonce: u64,
    expiry: u64,
    data: Seq<u8>,
    now: u64,
)
    requires
        psk.len() <= u64::MAX,
        now <= expiry,
        holds(issuer.consumed, nonce),
    ensures
        issuer.accepted(honest_message(psk, nonce, expiry, data), now).1 == Err::<
            Seq<u8>,
            ProtocolError,
        >(ProtocolError::ReplayDetected),
        issuer.accepted(honest_message(psk, nonce, expiry, data), now).0.consumed
            == issuer.consumed,
{
    lemma_honest_message_reads(psk, nonce, expiry, data);
}

/// Presenting any message at any time leaves every redeemed nonce redeemed.
pub proof fn lemma_redemption_keeps_nonces(
    issuer: ResumptionView,
    message: Seq<u8>,
    now: u64,
    nonce: u64,
)
    requires
        holds(issuer.consumed, nonce),
    ensures
        holds(issuer.accepted(message, now).0.consumed, nonce),
{
    let i = choose|i: int| 0 <= i < issuer.consumed.len() && (#[trigger] issuer.consumed[i]).nonce
        == nonce;
    let after = issuer.accepted(message, now).0.consumed;
    assert(after[i].nonce == nonce);
}

/// Pruning keeps the nonce of every ticket that has not expired.
pub proof fn lemma_prune_keeps_live_nonces(consumed: Seq<ConsumedNonce>, now: u64, at: int)
    requires
        0 <= at < consumed.len(),
        consumed[at].expiry >= now,
    ensures
        holds(unexpired(consumed, now), consumed[at].nonce),
    decreases consumed.len(),
{
    let earlier = unexpired(consumed.drop_last(), now);
    if at == consumed.len() - 1 {
        let kept = earlier.push(consumed.last());
        assert(kept[earlier.len() as int].nonce == consumed[at].nonce);
    } else {
        lemma_prune_keeps_live_nonces(consumed.drop_last(), now, at);
        let i = choose|i: int| 0 <= i < earlier.len() && (#[trigger] earlier[i]).nonce
            == consumed[at].nonce;
        assert(unexpired(consumed, now)[i].nonce == consumed[at].nonce);
    }
}

/// A ticket is redeemed at most once. After the first redemption of an
/// honest message, and after any pruning at a time not later than the
/// second presentation, the same message is refused: as a replay while the
/// ticket has not expired, as expired afterwards.
pub proof fn lemma_ticket_redeems_once(
    issuer: ResumptionView,
    psk: Seq<u8>,
    nonce: u64,
    expiry: u64,
    data: Seq<u8>,
    first: u64,
    swept: u64,
    second: u64,
)
    requires
        psk.len() <= u64::MAX,
        first <= expiry,
        swept <= second,
        !holds(issuer.consumed, nonce),
    ensures
        ({
            let message = honest_message(psk, nonce, expiry, data);
            let once = issuer.accepted(message, first);
            let twice = once.0.pruned(swept).accepted(message, second);
            &&& once.1 == Ok::<Seq<u8>, ProtocolError>(data)
            &&& twice.1 == Err::<Seq<u8>, ProtocolError>(
                if second > expiry {
                    ProtocolError::TicketExpired
                } else {
                    ProtocolError::ReplayDetected
                },
            )
        }),
{
    let message = honest_message(psk, nonce, expiry, data);
    lemma_first_redemption_succeeds(issuer, psk, nonce, expiry, data, first);
    let once = issuer.accepted(message, first).0;
    let later = once.pruned(swept);
    if second > expiry {
        lemma_expired_ticket_is_refused(later, psk, nonce, expiry, data, second);
    } else {
        let at = issuer.consumed.len() as int;
        lemma_prune_keeps_live_nonces(once.consumed, swept, at);
        lemma_redeemed_nonce_is_replay(later, psk, nonce, expiry, data, second);
    }
}

} // verus!
