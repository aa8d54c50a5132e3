//! Quantum-resistant channel establishment: algorithm selection, a mutually
//! authenticated handshake, single-use resumption tickets and path migration.
//!
//! Every executable function carries a contract that Verus proves. The
//! cryptographic provider bundled here is a deterministic stand-in with the
//! wire sizes of the real schemes; it fixes the protocol's shape, not its
//! security.

pub mod admission;
pub mod bytes;
pub mod early_data;
pub mod error;
pub mod exchange;
pub mod handshake;
pub mod noise_0rtt;
pub mod noise_hybrid;
pub mod noise_pure;
pub mod pq_hybrid_protocol;
pub mod pq_kem;
pub mod pq_shield;
pub mod quic_migration;
pub mod quic_pq;
pub mod redemption;
pub mod stark_valence;
