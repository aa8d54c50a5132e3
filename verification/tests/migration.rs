use pq_channel::admission::AdmissionScore;
use pq_channel::admission::THRESHOLD_BITS;
use pq_channel::error::ProtocolError;
use pq_channel::handshake::TransportKeyPair;
use pq_channel::quic_migration::QuicMigration;
use pq_channel::quic_pq::QuicPq;

fn score(value: f64) -> AdmissionScore {
    AdmissionScore::from_bits(value.to_bits())
}

fn with_keys() -> QuicMigration {
    let mut endpoint = QuicMigration::new();
    endpoint.quic.install_keys(TransportKeyPair {
        send: vec![1; 32],
        recv: vec![2; 32],
        admission: score(1.0),
    });
    endpoint
}

#[test]
fn probe_is_adopted_on_its_path_and_keys_stay() {
    let full = score(1.0);
    let mut client = with_keys();
    let mut server = with_keys();
    let probe = client.client_migrate("A", full).unwrap();
    assert_eq!(probe.len(), 1568 + 128 + 4595 + 1);
    let response = server.server_validate_migration(&probe, "A", full).unwrap();
    assert_eq!(response.len(), 128 + 1);
    assert_eq!(server.path, b"A".to_vec());
    assert_eq!(server.quic.send_key, vec![1; 32]);
    assert_eq!(server.quic.recv_key, vec![2; 32]);
    assert_eq!(client.client_complete(&response, full), Ok(()));
    assert_eq!(client.path, b"A".to_vec());
    assert!(client.pending.is_none());
    assert_eq!(client.quic.send_key, vec![1; 32]);
    assert_eq!(client.quic.recv_key, vec![2; 32]);
}

#[test]
fn probe_for_one_path_is_refused_on_another() {
    let full = score(1.0);
    let mut client = QuicMigration::new();
    let mut server = with_keys();
    let probe = client.client_migrate("A", full).unwrap();
    assert_eq!(
        server.server_validate_migration(&probe, "B", full),
        Err(ProtocolError::MigrationFailed)
    );
    assert!(server.path.is_empty());
    assert_eq!(server.kem.call_count() + server.sig.call_count(), 0);
    assert_eq!(server.quic.send_key, vec![1; 32]);
    let mut relabelled = probe.clone();
    let last = relabelled.len() - 1;
    relabelled[last] = b'B';
    assert_eq!(
        server.server_validate_migration(&relabelled, "B", full),
        Err(ProtocolError::MigrationFailed)
    );
    assert!(server.path.is_empty());
    assert!(server.server_validate_migration(&probe, "A", full).is_ok());
}

#[test]
fn second_request_in_flight_is_refused() {
    let full = score(1.0);
    let mut client = QuicMigration::new();
    client.client_migrate("wifi", full).unwrap();
    let calls = client.kem.call_count() + client.sig.call_count();
    assert_eq!(calls, 2);
    assert_eq!(client.client_migrate("cell", full), Err(ProtocolError::MigrationInProgress));
    assert_eq!(client.pending, Some(b"wifi".to_vec()));
    assert_eq!(client.kem.call_count() + client.sig.call_count(), calls);
    let probe = QuicMigration::new().client_migrate("x", full).unwrap();
    assert_eq!(
        client.server_validate_migration(&probe, "x", full),
        Err(ProtocolError::MigrationInProgress)
    );
}

#[test]
fn wrong_response_keeps_the_old_path() {
    let full = score(1.0);
    let mut client = QuicMigration::new();
    let mut server = QuicMigration::new();
    let mut other = QuicMigration::new();
    let probe = client.client_migrate("A", full).unwrap();
    let response = server.server_validate_migration(&probe, "A", full).unwrap();
    let other_probe = other.client_migrate("B", full).unwrap();
    let other_response = QuicMigration::new()
        .server_validate_migration(&other_probe, "B", full)
        .unwrap();
    assert_eq!(client.client_complete(&other_response, full), Err(ProtocolError::MigrationFailed));
    assert!(client.path.is_empty());
    assert!(client.pending.is_none());
    assert_eq!(client.client_complete(&response, full), Err(ProtocolError::MigrationFailed));
    assert!(client.client_migrate("A", full).is_ok());
    assert_eq!(client.client_complete(&response, full), Ok(()));
    assert_eq!(client.path, b"A".to_vec());
}

#[test]
fn damaged_probe_is_refused() {
    let full = score(1.0);
    let mut client = QuicMigration::new();
    let probe = client.client_migrate("path", full).unwrap();
    for position in [0, 1567, 1568, 1695, 1696, 6290] {
        let mut server = QuicMigration::new();
        let mut damaged = probe.clone();
        damaged[position] ^= 0x10;
        assert_eq!(
            server.server_validate_migration(&damaged, "path", full),
            Err(ProtocolError::MigrationFailed)
        );
        assert!(server.path.is_empty());
    }
    let mut server = QuicMigration::new();
    assert_eq!(
        server.server_validate_migration(&probe[..6000], "path", full),
        Err(ProtocolError::MigrationFailed)
    );
}

#[test]
fn refused_score_makes_no_provider_call_in_migration() {
    let low = score(0.099);
    let mut client = QuicMigration::new();
    assert_eq!(client.client_migrate("A", low), Err(ProtocolError::AdmissionDenied));
    assert!(client.pending.is_none());
    let probe = QuicMigration::new().client_migrate("A", score(1.0)).unwrap();
    assert_eq!(
        client.server_validate_migration(&probe, "A", low),
        Err(ProtocolError::AdmissionDenied)
    );
    assert_eq!(client.client_complete(&[0; 129], low), Err(ProtocolError::AdmissionDenied));
    assert_eq!(client.kem.call_count() + client.sig.call_count(), 0);
    assert!(client.path.is_empty());
}

#[test]
fn stream_identifier_survives_migration() {
    let endpoint = QuicMigration::new();
    assert_eq!(endpoint.quic.open_stream(), Ok(0));
    assert_eq!(endpoint.post_migration_stream(), Ok(0));
}

#[test]
fn connection_opens_with_ciphertext_padding_and_ticket() {
    let full = score(1.0);
    let mut client = QuicPq::new();
    let mut server = QuicPq::new();
    let plain = client.client_connect(&vec![0x4D; 1568], full, None).unwrap();
    assert_eq!(plain.len(), 1568 + 1200);
    assert!(plain[..1568].iter().all(|byte| *byte == 0xC7));
    assert!(plain[1568..].iter().all(|byte| *byte == 0x1A));
    let resumed = client.client_connect(&vec![0x4D; 1568], full, Some(&[9, 9, 9])).unwrap();
    assert_eq!(resumed.len(), 1568 + 1200 + 3);
    assert_eq!(resumed[1568 + 1200..], [9, 9, 9]);
    assert_eq!(client.kem.call_count(), 2);
    assert_eq!(server.server_accept(&plain, full), Ok(vec![0x2B; 2400]));
    assert_eq!(server.kem.call_count(), 1);
}

#[test]
fn connection_refuses_low_scores_and_misshapen_input() {
    let mut client = QuicPq::new();
    assert_eq!(
        client.client_connect(&vec![0; 1568], score(0.01), None),
        Err(ProtocolError::AdmissionDenied)
    );
    assert_eq!(
        client.client_connect(&vec![0; 1567], score(1.0), None),
        Err(ProtocolError::HandshakeFailed)
    );
    assert_eq!(
        client.server_accept(&vec![0; 2768], score(0.01)),
        Err(ProtocolError::AdmissionDenied)
    );
    assert_eq!(
        client.server_accept(&vec![0; 2767], score(1.0)),
        Err(ProtocolError::HandshakeFailed)
    );
    assert_eq!(client.kem.call_count(), 0);
}

#[test]
fn transport_parameters_announce_the_threshold() {
    let params = QuicPq::new().transport_params();
    assert_eq!(params, THRESHOLD_BITS.to_le_bytes().to_vec());
    assert_eq!(f64::from_le_bytes([
        params[0], params[1], params[2], params[3], params[4], params[5], params[6], params[7],
    ]), 0.1);
}
