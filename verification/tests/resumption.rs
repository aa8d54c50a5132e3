use pq_channel::admission::AdmissionScore;
use pq_channel::early_data::open;
use pq_channel::early_data::seal;
use pq_channel::error::ProtocolError;
use pq_channel::noise_0rtt::parse_ticket;
use pq_channel::noise_0rtt::ZeroRttNoise;

fn score(value: f64) -> AdmissionScore {
    AdmissionScore::from_bits(value.to_bits())
}

const NOW: u64 = 1_700_000_000;

#[test]
fn ticket_is_redeemed_once_then_refused_as_replay() {
    let full = score(1.0);
    let mut responder = ZeroRttNoise::new();
    let client = ZeroRttNoise::new();
    let ticket = responder.issue_ticket(vec![7u8; 32], full, 1, NOW + 3600).unwrap();
    let message = client.client_0rtt(&ticket, b"hello", full).unwrap();
    assert_eq!(responder.server_accept_0rtt(&message, NOW), Ok(b"hello".to_vec()));
    assert!(responder.is_consumed(1));
    assert_eq!(
        responder.server_accept_0rtt(&message, NOW + 1),
        Err(ProtocolError::ReplayDetected)
    );
    assert_eq!(responder.consumed.len(), 1);
}

#[test]
fn expired_ticket_is_refused_even_if_never_used() {
    let full = score(1.0);
    let mut responder = ZeroRttNoise::new();
    let ticket = responder.issue_ticket(vec![9u8; 48], full, 5, NOW).unwrap();
    let message = responder.client_0rtt(&ticket, b"data", full).unwrap();
    assert_eq!(
        responder.server_accept_0rtt(&message, NOW + 1),
        Err(ProtocolError::TicketExpired)
    );
    assert!(!responder.is_consumed(5));
    assert_eq!(responder.server_accept_0rtt(&message, NOW), Ok(b"data".to_vec()));
    assert_eq!(
        responder.server_accept_0rtt(&message, NOW + 1),
        Err(ProtocolError::TicketExpired)
    );
}

#[test]
fn ticket_has_the_documented_layout() {
    let mut responder = ZeroRttNoise::new();
    let ticket = responder
        .issue_ticket(vec![1, 2, 3], score(1.0), 0x0102_0304_0506_0708, 0xFF)
        .unwrap();
    let mut encoding: Vec<u8> = Vec::new();
    encoding.extend_from_slice(&[3, 0, 0, 0, 0, 0, 0, 0]);
    encoding.extend_from_slice(&[1, 2, 3]);
    encoding.extend_from_slice(&[8, 7, 6, 5, 4, 3, 2, 1]);
    encoding.extend_from_slice(&[0xFF, 0, 0, 0, 0, 0, 0, 0]);
    encoding.extend_from_slice(&[32, 0, 0, 0, 0, 0, 0, 0]);
    encoding.extend_from_slice(&[0xA7; 32]);
    assert_eq!(ticket.len(), encoding.len() + 4595);
    assert_eq!(ticket[..encoding.len()], encoding[..]);
    let checksum = encoding.iter().fold(0u8, |sum, byte| sum.wrapping_add(*byte));
    assert_eq!(ticket[encoding.len()], checksum);
    assert!(ticket[encoding.len() + 1..].iter().all(|byte| *byte == 0xD1));
    assert_eq!(responder.sig.call_count(), 1);
}

#[test]
fn parser_reads_back_what_was_issued() {
    let mut responder = ZeroRttNoise::new();
    let psk: Vec<u8> = (0u8..200).collect();
    let ticket = responder.issue_ticket(psk.clone(), score(0.5), 77, 88).unwrap();
    let (fields, used) = parse_ticket(&ticket).unwrap();
    assert_eq!(fields.psk, psk);
    assert_eq!(fields.nonce, 77);
    assert_eq!(fields.expiry, 88);
    assert_eq!(fields.attestation, vec![0xA7; 32]);
    assert_eq!(used, 8 + 200 + 8 + 8 + 8 + 32);
    assert_eq!(ticket.len(), used + 4595);
}

#[test]
fn parser_refuses_short_and_overlong_claims() {
    assert!(parse_ticket(&[]).is_none());
    assert!(parse_ticket(&[0; 31]).is_none());
    let (empty, used) = parse_ticket(&[0; 32]).unwrap();
    assert_eq!(used, 32);
    assert!(empty.psk.is_empty());
    assert!(empty.attestation.is_empty());
    let mut claims_too_much = vec![0u8; 40];
    claims_too_much[0] = 9;
    assert!(parse_ticket(&claims_too_much).is_none());
    claims_too_much[0] = 8;
    assert!(parse_ticket(&claims_too_much).is_some());
    let mut huge = vec![0u8; 40];
    huge[..8].copy_from_slice(&u64::MAX.to_le_bytes());
    assert!(parse_ticket(&huge).is_none());
    let mut second_claim = vec![0u8; 40];
    second_claim[24] = 9;
    assert!(parse_ticket(&second_claim).is_none());
}

#[test]
fn refused_score_issues_nothing_and_signs_nothing() {
    let mut responder = ZeroRttNoise::new();
    assert_eq!(
        responder.issue_ticket(vec![0; 32], score(0.05), 1, NOW),
        Err(ProtocolError::AdmissionDenied)
    );
    assert_eq!(responder.sig.call_count(), 0);
    let ticket = responder.issue_ticket(vec![0; 32], score(0.1), 1, NOW).unwrap();
    assert_eq!(
        responder.client_0rtt(&ticket, b"hello", score(0.0)),
        Err(ProtocolError::AdmissionDenied)
    );
}

#[test]
fn client_refuses_bytes_that_are_not_one_ticket() {
    let full = score(1.0);
    let mut responder = ZeroRttNoise::new();
    let ticket = responder.issue_ticket(vec![0; 32], full, 1, NOW).unwrap();
    assert_eq!(
        responder.client_0rtt(&ticket[..ticket.len() - 1], b"x", full),
        Err(ProtocolError::HandshakeFailed)
    );
    assert_eq!(responder.client_0rtt(&[1, 2, 3], b"x", full), Err(ProtocolError::HandshakeFailed));
    let message = responder.client_0rtt(&ticket, b"x", full).unwrap();
    assert_eq!(message.len(), ticket.len() + 1 + 16);
    assert_eq!(message[..ticket.len()], ticket[..]);
}

#[test]
fn server_refuses_forged_and_damaged_messages_without_recording() {
    let full = score(1.0);
    let mut responder = ZeroRttNoise::new();
    let ticket = responder.issue_ticket(vec![5; 32], full, 3, NOW + 10).unwrap();
    let message = responder.client_0rtt(&ticket, b"hello", full).unwrap();

    let mut forged_nonce = message.clone();
    forged_nonce[8 + 32] = 4;
    assert_eq!(
        responder.server_accept_0rtt(&forged_nonce, NOW),
        Err(ProtocolError::HandshakeFailed)
    );
    let mut damaged_data = message.clone();
    let last = damaged_data.len() - 17;
    damaged_data[last] ^= 1;
    assert_eq!(
        responder.server_accept_0rtt(&damaged_data, NOW),
        Err(ProtocolError::HandshakeFailed)
    );
    assert_eq!(
        responder.server_accept_0rtt(&message[..ticket.len() + 15], NOW),
        Err(ProtocolError::HandshakeFailed)
    );
    assert_eq!(
        responder.server_accept_0rtt(&message[..100], NOW),
        Err(ProtocolError::HandshakeFailed)
    );
    assert!(responder.consumed.is_empty());
    assert_eq!(responder.server_accept_0rtt(&message, NOW), Ok(b"hello".to_vec()));
}

#[test]
fn distinct_nonces_are_redeemed_independently() {
    let full = score(1.0);
    let mut responder = ZeroRttNoise::new();
    let first = responder.issue_ticket(vec![1; 32], full, 10, NOW + 5).unwrap();
    let second = responder.issue_ticket(vec![2; 32], full, 11, NOW + 5).unwrap();
    let first_message = responder.client_0rtt(&first, b"one", full).unwrap();
    let second_message = responder.client_0rtt(&second, b"two", full).unwrap();
    assert_eq!(responder.server_accept_0rtt(&second_message, NOW), Ok(b"two".to_vec()));
    assert_eq!(responder.server_accept_0rtt(&first_message, NOW), Ok(b"one".to_vec()));
    assert_eq!(
        responder.server_accept_0rtt(&second_message, NOW),
        Err(ProtocolError::ReplayDetected)
    );
    assert_eq!(
        responder.server_accept_0rtt(&first_message, NOW),
        Err(ProtocolError::ReplayDetected)
    );
}

#[test]
fn pruning_forgets_only_expired_tickets() {
    let full = score(1.0);
    let mut responder = ZeroRttNoise::new();
    let short = responder.issue_ticket(vec![1; 32], full, 1, NOW + 5).unwrap();
    let long = responder.issue_ticket(vec![2; 32], full, 2, NOW + 500).unwrap();
    let short_message = responder.client_0rtt(&short, b"a", full).unwrap();
    let long_message = responder.client_0rtt(&long, b"b", full).unwrap();
    responder.server_accept_0rtt(&short_message, NOW).unwrap();
    responder.server_accept_0rtt(&long_message, NOW).unwrap();
    responder.prune(NOW + 5);
    assert_eq!(responder.consumed.len(), 2);
    responder.prune(NOW + 6);
    assert_eq!(responder.consumed.len(), 1);
    assert!(!responder.is_consumed(1));
    assert!(responder.is_consumed(2));
    assert_eq!(
        responder.server_accept_0rtt(&short_message, NOW + 6),
        Err(ProtocolError::TicketExpired)
    );
    assert_eq!(
        responder.server_accept_0rtt(&long_message, NOW + 6),
        Err(ProtocolError::ReplayDetected)
    );
}

#[test]
fn sealed_data_has_the_documented_bytes() {
    let out = seal(&[10, 20], 258, &[1, 2, 255]);
    assert_eq!(out.len(), 3 + 16);
    assert_eq!(out[0], 1 + 32);
    assert_eq!(out[1], 2 + 33);
    assert_eq!(out[2], 33);
    for j in 0..16u8 {
        assert_eq!(out[3 + j as usize], 30 + 2 + j);
    }
    assert_eq!(open(&[10, 20], 258, &out), Some(vec![1, 2, 255]));
}

#[test]
fn opening_fails_under_another_secret_or_a_damaged_tag() {
    let out = seal(b"secret", 1, b"payload");
    assert_eq!(open(b"secret", 1, &out), Some(b"payload".to_vec()));
    assert_eq!(open(b"secreu", 1, &out), None);
    let mut damaged = out.clone();
    let last = damaged.len() - 1;
    damaged[last] ^= 1;
    assert_eq!(open(b"secret", 1, &damaged), None);
    assert_eq!(open(b"secret", 1, &out[..15]), None);
    assert_eq!(open(b"k", 0, &seal(b"k", 0, b"")), Some(Vec::new()));
}
