//! What holds of every exchange between two sessions: agreement on the
//! transport keys, the inertness of a refused step, and the rejection of
//! every message that was changed in transit.

use vstd::prelude::*;
use crate::admission::AdmissionScore;
use crate::error::ProtocolError;
use crate::handshake::Phase;
use crate::handshake::SessionView;
use crate::handshake::KEY_LEN;
use crate::pq_shield::lemma_signature_binds_message;

verus! {

/// Whether two sessions can open an exchange with each other: both idle and
/// of one configuration.
pub open spec fn can_pair(initiator: SessionView, responder: SessionView) -> bool {
    &&& initiator.phase == Phase::Idle
    &&& responder.phase == Phase::Idle
    &&& initiator.config == responder.config
}

/// The second message of an honest exchange, and the responder that sent it.
pub open spec fn honest_second(initiator: SessionView, responder: SessionView, score: AdmissionScore) -> (
    SessionView,
    Seq<u8>,
) {
    let first = initiator.start(score).1->Ok_0;
    let answered = responder.respond(first, score);
    (answered.0, answered.1->Ok_0)
}

/// The third message of an honest exchange, and the initiator that sent it.
pub open spec fn honest_third(
    initiator: SessionView,
    responder: SessionView,
    score: AdmissionScore,
) -> (SessionView, Seq<u8>) {
    let waiting = initiator.start(score).0;
    let second = honest_second(initiator, responder, score).1;
    let finished = waiting.finish(second, score);
    (finished.0, finished.1->Ok_0)
}

/// A full exchange under admitted scores succeeds at every step, installs
/// keys of the fixed length on both sides, leaves no ephemeral secret
/// behind, and each side's sending key is the other side's receiving key.
pub proof fn lemma_exchange_agrees(
    initiator: SessionView,
    responder: SessionView,
    score: AdmissionScore,
)
    requires
        can_pair(initiator, responder),
        score.admitted(),
    ensures
        initiator.start(score).1 is Ok,
        responder.respond(initiator.start(score).1->Ok_0, score).1 is Ok,
        initiator.start(score).0.finish(
            honest_second(initiator, responder, score).1,
            score,
        ).1 is Ok,
        ({
            let done = honest_second(initiator, responder, score).0.complete(
                honest_third(initiator, responder, score).1,
                score,
            );
            let left = honest_third(initiator, responder, score).0;
            let right = done.0;
            &&& done.1 is Ok
            &&& left.phase == Phase::KeyDerived
            &&& right.phase == Phase::KeyDerived
            &&& left.send_key == right.recv_key
            &&& left.recv_key == right.send_key
            &&& left.send_key.len() == KEY_LEN
            &&& left.recv_key.len() == KEY_LEN
            &&& left.ephemeral_secret.len() == 0
            &&& right.ephemeral_secret.len() == 0
            &&& left.transcript == right.transcript
        }),
{
    let cfg = initiator.config;
    let scheme = cfg.signature_scheme();
    let started = initiator.start(score);
    let first = started.1->Ok_0;
    let answered = responder.respond(first, score);
    let second = answered.1->Ok_0;
    let body2 = cfg.second_body();
    let heard1 = cfg.prologue() + first;
    assert(second.subrange(0, body2.len() as int) =~= body2);
    assert(second.subrange(body2.len() as int, second.len() as int) =~= scheme.signature(
        heard1 + body2,
    ));
    let finished = started.0.finish(second, score);
    let third = finished.1->Ok_0;
    let body3 = cfg.third_body();
    let heard2 = heard1 + second;
    assert(third.subrange(0, body3.len() as int) =~= body3);
    assert(third.subrange(body3.len() as int, third.len() as int) =~= scheme.signature(
        heard2 + body3,
    ));
}

/// A step under a refused score returns `AdmissionDenied` and leaves the
/// session as it was, the provider's call counts included.
pub proof fn lemma_denied_is_inert(
    session: SessionView,
    message: Seq<u8>,
    score: AdmissionScore,
)
    requires
        !score.admitted(),
    ensures
        session.start(score) == (session, Err::<Seq<u8>, ProtocolError>(ProtocolError::AdmissionDenied)),
        session.respond(message, score) == (
            session,
            Err::<Seq<u8>, ProtocolError>(ProtocolError::AdmissionDenied),
        ),
        session.finish(message, score) == (
            session,
            Err::<Seq<u8>, ProtocolError>(ProtocolError::AdmissionDenied),
        ),
        session.complete(message, score) == (
            session,
            Err::<(), ProtocolError>(ProtocolError::AdmissionDenied),
        ),
{
}

/// Whether a step ended in `HandshakeFailed` with the session aborted and
/// no key installed.
pub open spec fn rejected<T>(after: (SessionView, Result<T, ProtocolError>)) -> bool {
    &&& after.1 == Err::<T, ProtocolError>(ProtocolError::HandshakeFailed)
    &&& after.0.phase == Phase::ClosedAborted
    &&& after.0.send_key.len() == 0
    &&& after.0.recv_key.len() == 0
    &&& after.0.ephemeral_secret.len() == 0
}

/// An initiator rejects a second message of which any single byte was
/// changed in transit.
pub proof fn lemma_changed_second_is_rejected(
    initiator: SessionView,
    responder: SessionView,
    score: AdmissionScore,
    at: int,
    byte: u8,
)
    requires
        can_pair(initiator, responder),
        score.admitted(),
        0 <= at < honest_second(initiator, responder, score).1.len(),
        byte != honest_second(initiator, responder, score).1[at],
    ensures
        rejected(
            initiator.start(score).0.finish(
                honest_second(initiator, responder, score).1.update(at, byte),
                score,
            ),
        ),
{
    let cfg = initiator.config;
    let scheme = cfg.signature_scheme();
    let first = initiator.start(score).1->Ok_0;
    let second = honest_second(initiator, responder, score).1;
    let body = cfg.second_body();
    let heard = cfg.prologue() + first;
    let n = body.len() as int;
    let changed = second.update(at, byte);
    if at < n {
        assert(changed.subrange(0, n) =~= body.update(at, byte));
        assert(changed.subrange(n, changed.len() as int) =~= scheme.signature(heard + body));
        assert(heard + body.update(at, byte) =~= (heard + body).update(heard.len() + at, byte));
        lemma_signature_binds_message(scheme, heard + body, heard.len() + at, byte);
    } else {
        assert(changed.subrange(0, n) =~= body);
    }
}

/// An initiator rejects the answer to a first message of which any single
/// byte was changed in transit.
pub proof fn lemma_changed_first_is_rejected(
    initiator: SessionView,
    responder: SessionView,
    score: AdmissionScore,
    at: int,
    byte: u8,
)
    requires
        can_pair(initiator, responder),
        score.admitted(),
        0 <= at < initiator.start(score).1->Ok_0.len(),
        byte != initiator.start(score).1->Ok_0[at],
    ensures
        responder.respond(initiator.start(score).1->Ok_0.update(at, byte), score).1 is Ok,
        rejected(
            initiator.start(score).0.finish(
                responder.respond(initiator.start(score).1->Ok_0.update(at, byte), score).1->Ok_0,
                score,
            ),
        ),
{
    let cfg = initiator.config;
    let scheme = cfg.signature_scheme();
    let first = initiator.start(score).1->Ok_0;
    let changed = first.update(at, byte);
    let second = responder.respond(changed, score).1->Ok_0;
    let body = cfg.second_body();
    let heard = cfg.prologue() + first;
    let misheard = cfg.prologue() + changed;
    let n = body.len() as int;
    assert(second.subrange(0, n) =~= body);
    assert(second.subrange(n, second.len() as int) =~= scheme.signature(misheard + body));
    assert(misheard + body =~= (heard + body).update(cfg.prologue().len() + at, byte));
    lemma_signature_binds_message(scheme, heard + body, cfg.prologue().len() + at, byte);
}

/// A responder rejects a third message of which any single byte was changed
/// in transit.
pub proof fn lemma_changed_third_is_rejected(
    initiator: SessionView,
    responder: SessionView,
    score: AdmissionScore,
    at: int,
    byte: u8,
)
    requires
        can_pair(initiator, responder),
        score.admitted(),
        0 <= at < honest_third(initiator, responder, score).1.len(),
        byte != honest_third(initiator, responder, score).1[at],
    ensures
        rejected(
            honest_second(initiator, responder, score).0.complete(
                honest_third(initiator, responder, score).1.update(at, byte),
                score,
            ),
        ),
{
    lemma_exchange_agrees(initiator, responder, score);
    let cfg = initiator.config;
    let scheme = cfg.signature_scheme();
    let first = initiator.start(score).1->Ok_0;
    let answered = honest_second(initiator, responder, score);
    let second = answered.1;
    let third = honest_third(initiator, responder, score).1;
    let body = cfg.third_body();
    let heard = cfg.prologue() + first + second;
    let n = body.len() as int;
    let changed = third.update(at, byte);
    if at < n {
        assert(changed.subrange(0, n) =~= body.update(at, byte));
        assert(changed.subrange(n, changed.len() as int) =~= scheme.signature(heard + body));
        assert(heard + body.update(at, byte) =~= (heard + body).update(heard.len() + at, byte));
        lemma_signature_binds_message(scheme, heard + body, heard.len() + at, byte);
    } else {
        assert(changed.subrange(0, n) =~= body);
    }
}

} // verus!
