use pq_channel::admission::AdmissionScore;
use pq_channel::bytes::checksum_of;
use pq_channel::error::ProtocolError;
use pq_channel::handshake::derive_transport_key;
use pq_channel::handshake::Configuration;
use pq_channel::handshake::HandshakeSession;
use pq_channel::handshake::Phase;
use pq_channel::noise_hybrid::NoiseHybrid;
use pq_channel::noise_pure::PureNoise;
use pq_channel::pq_hybrid_protocol::HybridProtocol;

fn score(value: f64) -> AdmissionScore {
    AdmissionScore::from_bits(value.to_bits())
}

#[test]
fn pure_exchange_completes_in_three_messages_with_matching_keys() {
    let full = score(1.0);
    let mut initiator = PureNoise::new();
    let mut responder = PureNoise::new();

    let msg1 = initiator.initiator_handshake(full).unwrap();
    assert_eq!(msg1.len(), 1568);
    let msg2 = responder.responder_handshake(&msg1, full).unwrap();
    assert_eq!(msg2.len(), 1568 + 1568 + 2592 + 4595);
    let msg3 = initiator.initiator_final(&msg2, full).unwrap();
    assert_eq!(msg3.len(), 2592 + 1568 + 4595);
    let responder_keys = responder.responder_complete(&msg3, full).unwrap();
    let initiator_keys = initiator.transport_keys().unwrap();

    assert_eq!(initiator_keys.send.len(), 32);
    assert_eq!(initiator_keys.recv.len(), 32);
    assert_eq!(initiator_keys.send, responder_keys.recv);
    assert_eq!(initiator_keys.recv, responder_keys.send);
    assert_ne!(initiator_keys.send, initiator_keys.recv);
    assert_eq!(responder_keys.admission, full);
    assert_eq!(initiator.session.phase, Phase::KeyDerived);
    assert_eq!(responder.session.phase, Phase::KeyDerived);
    assert!(initiator.session.ephemeral_secret.is_empty());
    assert!(responder.session.ephemeral_secret.is_empty());
    assert!(initiator.session.secrets.is_empty());
    assert!(responder.session.secrets.is_empty());
    assert_eq!(initiator.session.transcript, responder.session.transcript);
}

#[test]
fn hybrid_exchange_completes_with_matching_keys() {
    let enough = score(0.1);
    let mut initiator = NoiseHybrid::new();
    let mut responder = NoiseHybrid::new();

    let msg1 = initiator.initiator_handshake(enough).unwrap();
    assert_eq!(msg1.len(), 32 + 1184);
    let msg2 = responder.responder_handshake(&msg1, enough).unwrap();
    assert_eq!(msg2.len(), 1216 + (1216 + 1088) + 2624 + (64 + 4595));
    let msg3 = initiator.initiator_final(&msg2, enough).unwrap();
    assert_eq!(msg3.len(), 2624 + (1216 + 1088) + (64 + 4595));
    let responder_keys = responder.responder_complete(&msg3, enough).unwrap();
    let initiator_keys = initiator.transport_keys().unwrap();
    assert_eq!(initiator_keys.send, responder_keys.recv);
    assert_eq!(initiator_keys.recv, responder_keys.send);
    assert_eq!(initiator_keys.send.len(), 32);
}

#[test]
fn exchange_counts_its_provider_calls() {
    let full = score(1.0);
    let mut initiator = PureNoise::new();
    let mut responder = PureNoise::new();
    assert_eq!(initiator.provider_calls(), 0);
    let msg1 = initiator.initiator_handshake(full).unwrap();
    assert_eq!(initiator.provider_calls(), 1);
    let msg2 = responder.responder_handshake(&msg1, full).unwrap();
    assert_eq!(responder.provider_calls(), 3);
    let msg3 = initiator.initiator_final(&msg2, full).unwrap();
    assert_eq!(initiator.provider_calls(), 5);
    responder.responder_complete(&msg3, full).unwrap();
    assert_eq!(responder.provider_calls(), 5);
}

#[test]
fn refused_score_makes_no_provider_call_at_any_step() {
    let low = score(0.05);
    let full = score(1.0);

    let mut idle = PureNoise::new();
    assert_eq!(idle.initiator_handshake(low), Err(ProtocolError::AdmissionDenied));
    assert_eq!(idle.responder_handshake(&vec![0; 1568], low), Err(ProtocolError::AdmissionDenied));
    assert_eq!(idle.provider_calls(), 0);
    assert_eq!(idle.session.phase, Phase::Idle);

    let mut initiator = PureNoise::new();
    let mut responder = PureNoise::new();
    let msg1 = initiator.initiator_handshake(full).unwrap();
    let msg2 = responder.responder_handshake(&msg1, full).unwrap();
    let before = initiator.provider_calls();
    assert_eq!(
        initiator.initiator_final(&msg2, low),
        Err(ProtocolError::AdmissionDenied)
    );
    assert_eq!(initiator.provider_calls(), before);
    assert_eq!(initiator.session.phase, Phase::AwaitingPeerEphemeral);
    let msg3 = initiator.initiator_final(&msg2, full).unwrap();
    let before = responder.provider_calls();
    assert_eq!(
        responder.responder_complete(&msg3, low).unwrap_err(),
        ProtocolError::AdmissionDenied
    );
    assert_eq!(responder.provider_calls(), before);
    assert_eq!(responder.session.phase, Phase::AwaitingPeerResponse);
    assert!(responder.responder_complete(&msg3, full).is_ok());
}

#[test]
fn refused_score_makes_no_provider_call_in_the_hybrid_engines() {
    let low = score(0.0);
    let mut noise = NoiseHybrid::new();
    assert_eq!(noise.initiator_handshake(low), Err(ProtocolError::AdmissionDenied));
    assert_eq!(noise.provider_calls(), 0);
    let mut protocol = HybridProtocol::new();
    assert_eq!(
        protocol.initiate_handshake(&vec![0; 1216], low),
        Err(ProtocolError::AdmissionDenied)
    );
    assert_eq!(
        protocol.complete_handshake(&vec![0; 8179], &vec![0; 2432], low),
        Err(ProtocolError::AdmissionDenied)
    );
    assert_eq!(protocol.kem.call_count() + protocol.sig.call_count(), 0);
}

#[test]
fn tampered_second_message_fails_at_every_field() {
    let full = score(1.0);
    let positions = [0, 1567, 1568, 3135, 3136, 5727, 5728, 10322];
    for position in positions {
        let mut initiator = PureNoise::new();
        let mut responder = PureNoise::new();
        let msg1 = initiator.initiator_handshake(full).unwrap();
        let mut msg2 = responder.responder_handshake(&msg1, full).unwrap();
        msg2[position] ^= 0x01;
        assert_eq!(
            initiator.initiator_final(&msg2, full),
            Err(ProtocolError::HandshakeFailed),
            "position {position}"
        );
        assert_eq!(initiator.session.phase, Phase::ClosedAborted);
        assert!(initiator.transport_keys().is_none());
        assert!(initiator.session.ephemeral_secret.is_empty());
    }
}

#[test]
fn tampered_first_message_fails_at_the_initiator() {
    let full = score(1.0);
    let mut initiator = PureNoise::new();
    let mut responder = PureNoise::new();
    let mut msg1 = initiator.initiator_handshake(full).unwrap();
    msg1[7] = msg1[7].wrapping_add(1);
    let msg2 = responder.responder_handshake(&msg1, full).unwrap();
    assert_eq!(
        initiator.initiator_final(&msg2, full),
        Err(ProtocolError::HandshakeFailed)
    );
    assert!(initiator.transport_keys().is_none());
}

#[test]
fn tampered_third_message_fails_at_the_responder() {
    let full = score(1.0);
    for position in [0, 2591, 2592, 4159, 4160, 8754] {
        let mut initiator = PureNoise::new();
        let mut responder = PureNoise::new();
        let msg1 = initiator.initiator_handshake(full).unwrap();
        let msg2 = responder.responder_handshake(&msg1, full).unwrap();
        let mut msg3 = initiator.initiator_final(&msg2, full).unwrap();
        msg3[position] ^= 0x80;
        assert_eq!(
            responder.responder_complete(&msg3, full).unwrap_err(),
            ProtocolError::HandshakeFailed
        );
        assert_eq!(responder.session.phase, Phase::ClosedAborted);
        assert!(responder.transport_keys().is_none());
    }
}

#[test]
fn wrong_length_messages_abort_the_session() {
    let full = score(1.0);
    let mut responder = PureNoise::new();
    assert_eq!(
        responder.responder_handshake(&vec![0; 1567], full),
        Err(ProtocolError::HandshakeFailed)
    );
    assert_eq!(responder.session.phase, Phase::ClosedAborted);
    assert_eq!(responder.provider_calls(), 0);

    let mut initiator = PureNoise::new();
    initiator.initiator_handshake(full).unwrap();
    assert_eq!(initiator.initiator_final(&vec![0; 10], full), Err(ProtocolError::HandshakeFailed));
    assert_eq!(initiator.session.phase, Phase::ClosedAborted);

    let mut initiator = PureNoise::new();
    let mut peer = PureNoise::new();
    let msg1 = initiator.initiator_handshake(full).unwrap();
    let msg2 = peer.responder_handshake(&msg1, full).unwrap();
    let msg3 = initiator.initiator_final(&msg2, full).unwrap();
    assert_eq!(
        peer.responder_complete(&msg3[1..], full).unwrap_err(),
        ProtocolError::HandshakeFailed
    );
    assert_eq!(peer.session.phase, Phase::ClosedAborted);
}

#[test]
fn step_out_of_phase_is_busy_and_changes_nothing() {
    let full = score(1.0);
    let mut session = HandshakeSession::new(Configuration::PurePq);
    assert_eq!(session.initiator_finish(&vec![0; 10323], full), Err(ProtocolError::SessionBusy));
    assert_eq!(session.complete(&vec![0; 8755], full).unwrap_err(), ProtocolError::SessionBusy);
    assert_eq!(session.current_phase(), Phase::Idle);
    session.initiator_start(full).unwrap();
    assert_eq!(session.initiator_start(full), Err(ProtocolError::SessionBusy));
    assert_eq!(session.responder_respond(&vec![0; 1568], full), Err(ProtocolError::SessionBusy));
    assert_eq!(session.current_phase(), Phase::AwaitingPeerEphemeral);
    assert_eq!(session.provider_calls(), 1);
}

#[test]
fn keys_are_absent_until_derived_and_wiped_on_close() {
    let full = score(1.0);
    let mut initiator = PureNoise::new();
    let mut responder = PureNoise::new();
    assert!(initiator.transport_keys().is_none());
    let msg1 = initiator.initiator_handshake(full).unwrap();
    assert!(initiator.transport_keys().is_none());
    let msg2 = responder.responder_handshake(&msg1, full).unwrap();
    assert!(responder.transport_keys().is_none());
    initiator.initiator_final(&msg2, full).unwrap();
    assert!(initiator.transport_keys().is_some());
    initiator.close();
    assert_eq!(initiator.session.phase, Phase::ClosedCompleted);
    assert!(initiator.transport_keys().is_none());
    assert!(initiator.session.send_key.is_empty());
    responder.close();
    assert_eq!(responder.session.phase, Phase::ClosedAborted);
    assert!(responder.session.ephemeral_secret.is_empty());
    assert!(responder.session.secrets.is_empty());
}

#[test]
fn transport_key_bytes_follow_the_formula() {
    let secret: Vec<u8> = (0u8..64).collect();
    let transcript = vec![3u8, 4, 5];
    let key = derive_transport_key(&secret, &transcript, 2);
    assert_eq!(key.len(), 32);
    let secret_sum = checksum_of(&secret) as u32;
    assert_eq!(secret_sum, 224);
    for i in 0..32u32 {
        assert_eq!(key[i as usize] as u32, (secret_sum + i + 12 + 2 + i) % 256);
    }
    assert_eq!(key[0], 238);
    assert_eq!(key[31], 44);
}

#[test]
fn one_shot_exchange_agrees_on_the_secret() {
    let full = score(1.0);
    let mut sender = HybridProtocol::new();
    let mut recipient = HybridProtocol::new();
    let (message, sent) = sender.initiate_handshake(&vec![0x48; 1216], full).unwrap();
    assert_eq!(message.len(), 1216 + 2304 + 4659);
    assert_eq!(sent.len(), 32);
    let received = recipient.complete_handshake(&message, &vec![0; 2432], full).unwrap();
    assert_eq!(sent, received);
    assert_eq!(sender.kem.call_count(), 4);
    assert_eq!(sender.sig.call_count(), 1);
    assert_eq!(recipient.kem.call_count(), 2);
    assert_eq!(recipient.sig.call_count(), 1);
}

#[test]
fn one_shot_exchange_refuses_changed_and_misshapen_input() {
    let full = score(1.0);
    let mut sender = HybridProtocol::new();
    let mut recipient = HybridProtocol::new();
    assert_eq!(
        sender.initiate_handshake(&vec![0; 1215], full),
        Err(ProtocolError::HandshakeFailed)
    );
    let (message, _) = sender.initiate_handshake(&vec![0; 1216], full).unwrap();
    for position in [0, 1215, 1216, 3519, 3520, 8178] {
        let mut changed = message.clone();
        changed[position] = changed[position].wrapping_add(1);
        assert_eq!(
            recipient.complete_handshake(&changed, &vec![0; 2432], full),
            Err(ProtocolError::HandshakeFailed)
        );
    }
    assert_eq!(
        recipient.complete_handshake(&message[1..], &vec![0; 2432], full),
        Err(ProtocolError::HandshakeFailed)
    );
    assert_eq!(
        recipient.complete_handshake(&message, &vec![0; 2431], full),
        Err(ProtocolError::HandshakeFailed)
    );
}
