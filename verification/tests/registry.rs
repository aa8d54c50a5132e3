use pq_channel::bytes::checksum_of;
use pq_channel::error::ProtocolError;
use pq_channel::pq_kem::HybridShield;
use pq_channel::pq_kem::KemLevel;
use pq_channel::pq_kem::KemSelector;
use pq_channel::pq_kem::KeyExchangeScheme;
use pq_channel::pq_kem::McElieceShield;
use pq_channel::pq_kem::MlKemShield;
use pq_channel::pq_shield::ClassicalShield;
use pq_channel::pq_shield::DilithiumLevel;
use pq_channel::pq_shield::DilithiumShield;
use pq_channel::pq_shield::FalconLevel;
use pq_channel::pq_shield::FalconShield;
use pq_channel::pq_shield::HashBasedShield;
use pq_channel::pq_shield::HssLevel;
use pq_channel::pq_shield::SignatureScheme;
use pq_channel::pq_shield::SignatureSelector;
use pq_channel::pq_shield::SphincsLevel;
use pq_channel::pq_shield::SphincsShield;

#[test]
fn kem_default_is_the_highest_lattice_level() {
    let selector = KemSelector::new(KemLevel::Kem512);
    assert_eq!(selector.select_best(), KeyExchangeScheme::MlKem(KemLevel::Kem1024));
    assert_eq!(selector.resolve(None), KeyExchangeScheme::MlKem(KemLevel::Kem1024));
    assert_eq!(selector.resolve(Some(KeyExchangeScheme::McEliece)), KeyExchangeScheme::McEliece);
}

#[test]
fn signature_default_is_the_highest_lattice_level() {
    let selector = SignatureSelector::new(DilithiumLevel::Level2);
    assert_eq!(selector.select_best(), SignatureScheme::Dilithium(DilithiumLevel::Level5));
    assert_eq!(selector.resolve(None), SignatureScheme::Dilithium(DilithiumLevel::Level5));
    assert_eq!(selector.resolve(Some(SignatureScheme::Classical)), SignatureScheme::Classical);
}

#[test]
fn kem_wire_sizes_by_scheme() {
    assert_eq!(KeyExchangeScheme::MlKem(KemLevel::Kem512).wire_size(), (800, 768));
    assert_eq!(KeyExchangeScheme::MlKem(KemLevel::Kem768).wire_size(), (1184, 1088));
    assert_eq!(KeyExchangeScheme::MlKem(KemLevel::Kem1024).wire_size(), (1568, 1568));
    assert_eq!(KeyExchangeScheme::Hybrid.wire_size(), (32, 1216));
    assert_eq!(KeyExchangeScheme::McEliece.wire_size(), (261120, 128));
    assert_eq!(KeyExchangeScheme::MlKem(KemLevel::Kem512).sk_len(), 1632);
    assert_eq!(KeyExchangeScheme::MlKem(KemLevel::Kem768).sk_len(), 2400);
    assert_eq!(KeyExchangeScheme::MlKem(KemLevel::Kem1024).sk_len(), 3168);
    assert_eq!(KeyExchangeScheme::McEliece.sk_len(), 6496);
}

#[test]
fn kem_wire_size_by_tag() {
    let selector = KemSelector::new(KemLevel::Kem768);
    assert_eq!(selector.wire_size(0, 1), Ok((800, 768)));
    assert_eq!(selector.wire_size(0, 3), Ok((1184, 1088)));
    assert_eq!(selector.wire_size(0, 5), Ok((1568, 1568)));
    assert_eq!(selector.wire_size(1, 0), Ok((32, 1216)));
    assert_eq!(selector.wire_size(2, 0), Ok((261120, 128)));
}

#[test]
fn kem_unknown_pairing_is_refused() {
    let selector = KemSelector::new(KemLevel::Kem768);
    assert_eq!(selector.wire_size(0, 2), Err(ProtocolError::UnknownScheme));
    assert_eq!(selector.wire_size(1, 5), Err(ProtocolError::UnknownScheme));
    assert_eq!(selector.wire_size(3, 0), Err(ProtocolError::UnknownScheme));
    assert_eq!(KeyExchangeScheme::from_tag(0, 4), Err(ProtocolError::UnknownScheme));
    assert_eq!(KeyExchangeScheme::from_tag(0, 5), Ok(KeyExchangeScheme::MlKem(KemLevel::Kem1024)));
}

#[test]
fn signature_wire_size_by_tag() {
    let selector = SignatureSelector::new(DilithiumLevel::Level5);
    assert_eq!(selector.wire_size(0, 2), Ok((1312, 2420)));
    assert_eq!(selector.wire_size(0, 3), Ok((1952, 3293)));
    assert_eq!(selector.wire_size(0, 5), Ok((2592, 4595)));
    assert_eq!(selector.wire_size(1, 1), Ok((897, 666)));
    assert_eq!(selector.wire_size(1, 5), Ok((1793, 1280)));
    assert_eq!(selector.wire_size(2, 0), Ok((32, 8080)));
    assert_eq!(selector.wire_size(2, 1), Ok((32, 17088)));
    assert_eq!(selector.wire_size(3, 0), Ok((32, 64)));
    assert_eq!(selector.wire_size(4, 0), Ok((2624, 4659)));
    assert_eq!(selector.wire_size(5, 1), Ok((60, 3040)));
    assert_eq!(selector.wire_size(5, 2), Ok((60, 6080)));
    assert_eq!(selector.wire_size(5, 3), Ok((60, 9120)));
}

#[test]
fn signature_unknown_pairing_is_refused() {
    let selector = SignatureSelector::new(DilithiumLevel::Level5);
    assert_eq!(selector.wire_size(0, 1), Err(ProtocolError::UnknownScheme));
    assert_eq!(selector.wire_size(1, 3), Err(ProtocolError::UnknownScheme));
    assert_eq!(selector.wire_size(3, 1), Err(ProtocolError::UnknownScheme));
    assert_eq!(selector.wire_size(6, 0), Err(ProtocolError::UnknownScheme));
    assert_eq!(SignatureScheme::from_tag(1, 2), Err(ProtocolError::UnknownScheme));
    assert_eq!(SignatureScheme::from_tag(4, 0), Ok(SignatureScheme::Hybrid));
}

#[test]
fn lattice_shield_artefacts_have_the_scheme_sizes() {
    let shield = MlKemShield::new(KemLevel::Kem768);
    let (pk, sk) = shield.keygen();
    assert_eq!(pk, vec![0x4D; 1184]);
    assert_eq!(sk, vec![0x4D; 2400]);
    let (ct, ss) = shield.encapsulate(&pk);
    assert_eq!(ct, vec![0xC7; 1088]);
    assert_eq!(ss, vec![0x55; 32]);
    assert_eq!(shield.decapsulate(&sk, &ct), ss);
}

#[test]
fn hybrid_shield_artefacts_have_the_scheme_sizes() {
    let shield = HybridShield::new();
    let (pk, sk) = shield.keygen();
    assert_eq!(pk, vec![0x48; 32]);
    assert_eq!(sk, vec![0x48; 32]);
    let (ct, ss) = shield.encapsulate(&pk);
    assert_eq!(ct.len(), 1216);
    assert_eq!(shield.decapsulate(&sk, &ct), ss);
}

#[test]
fn code_based_shield_artefacts_have_the_scheme_sizes() {
    let shield = McElieceShield::new();
    let (pk, sk) = shield.keygen();
    assert_eq!(pk.len(), 261120);
    assert_eq!(sk.len(), 6496);
    let (ct, ss) = shield.encapsulate(&pk);
    assert_eq!(ct.len(), 128);
    assert_eq!(ss.len(), 32);
    assert_eq!(shield.decapsulate(&sk, &ct), ss);
}

#[test]
fn selector_secrets_agree_for_every_scheme() {
    let schemes = [
        None,
        Some(KeyExchangeScheme::MlKem(KemLevel::Kem512)),
        Some(KeyExchangeScheme::MlKem(KemLevel::Kem768)),
        Some(KeyExchangeScheme::MlKem(KemLevel::Kem1024)),
        Some(KeyExchangeScheme::Hybrid),
        Some(KeyExchangeScheme::McEliece),
    ];
    for scheme in schemes {
        let mut selector = KemSelector::new(KemLevel::Kem768);
        let resolved = selector.resolve(scheme);
        let (pk, sk) = selector.keygen(scheme);
        assert_eq!(pk.len(), resolved.pk_len());
        assert_eq!(sk.len(), resolved.sk_len());
        let (ct, sent) = selector.encapsulate(scheme, &pk);
        assert_eq!(ct.len(), resolved.ct_len());
        let received = selector.decapsulate(scheme, &sk, &ct);
        assert_eq!(sent, received);
        assert_eq!(selector.call_count(), 3);
    }
}

#[test]
fn checksum_adds_the_bytes_modulo_256() {
    assert_eq!(checksum_of(&[]), 0);
    assert_eq!(checksum_of(&[1, 2, 3]), 6);
    assert_eq!(checksum_of(&[200, 100]), 44);
    assert_eq!(checksum_of(b"hello"), 20);
}

#[test]
fn signature_starts_with_the_checksum_of_the_message() {
    let sig = DilithiumShield::new(DilithiumLevel::Level3).sign(&[1, 2, 3]);
    assert_eq!(sig.len(), 3293);
    assert_eq!(sig[0], 6);
    assert!(sig[1..].iter().all(|b| *b == 0xD1));
}

#[test]
fn shield_signatures_have_the_scheme_sizes() {
    assert_eq!(DilithiumShield::new(DilithiumLevel::Level2).sign(b"m").len(), 2420);
    assert_eq!(DilithiumShield::new(DilithiumLevel::Level5).sign(b"m").len(), 4595);
    assert_eq!(FalconShield::new(FalconLevel::Level1).sign(b"m").len(), 666);
    assert_eq!(FalconShield::new(FalconLevel::Level5).sign(b"m").len(), 1280);
    assert_eq!(SphincsShield::new(SphincsLevel::Small).sign(b"m").len(), 8080);
    assert_eq!(SphincsShield::new(SphincsLevel::Fast).sign(b"m").len(), 17088);
    assert_eq!(ClassicalShield::new().sign(b"m").len(), 64);
    assert_eq!(HashBasedShield::new(HssLevel::Level1).sign(b"m").len(), 3040);
    assert_eq!(HashBasedShield::new(HssLevel::Level2).sign(b"m").len(), 6080);
    assert_eq!(HashBasedShield::new(HssLevel::Level3).sign(b"m").len(), 9120);
}

#[test]
fn hybrid_signature_is_classical_then_lattice() {
    let mut selector = SignatureSelector::new(DilithiumLevel::Level2);
    let sig = selector.sign(Some(SignatureScheme::Hybrid), b"hello");
    assert_eq!(sig.len(), 64 + 4595);
    assert_eq!(sig[..64], ClassicalShield::new().sign(b"hello")[..]);
    assert_eq!(sig[64..], DilithiumShield::new(DilithiumLevel::Level5).sign(b"hello")[..]);
}

#[test]
fn selector_verifies_what_it_signed() {
    let schemes = [
        None,
        Some(SignatureScheme::Dilithium(DilithiumLevel::Level2)),
        Some(SignatureScheme::Falcon(FalconLevel::Level1)),
        Some(SignatureScheme::SphincsPlus(SphincsLevel::Fast)),
        Some(SignatureScheme::Classical),
        Some(SignatureScheme::Hybrid),
        Some(SignatureScheme::HashBased(HssLevel::Level2)),
    ];
    for scheme in schemes {
        let mut selector = SignatureSelector::new(DilithiumLevel::Level5);
        let sig = selector.sign(scheme, b"transcript");
        assert_eq!(sig.len(), selector.resolve(scheme).sig_len());
        assert!(selector.verify(scheme, b"transcript", &sig));
        assert_eq!(selector.call_count(), 2);
    }
}

#[test]
fn selector_refuses_a_signature_over_another_message() {
    let mut selector = SignatureSelector::new(DilithiumLevel::Level5);
    let sig = selector.sign(None, b"transcript");
    assert!(!selector.verify(None, b"transcripu", &sig));
    assert!(!selector.verify(None, b"transcript", &sig[1..]));
    assert!(!selector.verify(Some(SignatureScheme::Classical), b"transcript", &sig));
    let mut changed = sig.clone();
    changed[100] ^= 1;
    assert!(!selector.verify(None, b"transcript", &changed));
}
