//! Signature schemes: their wire sizes, a stand-in provider for each family,
//! and the selector that resolves a request to a concrete scheme.
//!
//! A stand-in signature has the length the real scheme fixes. Its first byte
//! is the additive checksum of the signed message and every other byte is the
//! family's marker, so that a signature is bound to what was signed: a change
//! of any single byte of the message makes verification fail.

use vstd::prelude::*;
use crate::bytes::append;
use crate::bytes::checksum;
use crate::bytes::checksum_of;
use crate::bytes::filled;
use crate::bytes::repeat;
use crate::bytes::same_bytes;
use crate::error::ProtocolError;
use crate::pq_kem::bump;
use crate::pq_kem::bumped;

verus! {

/// Marker byte of the primary lattice signatures.
pub const DILITHIUM_BYTE: u8 = 0xD1;

/// Marker byte of the compact lattice signatures.
pub const FALCON_BYTE: u8 = 0xFA;

/// Marker byte of the stateless hash-based signatures.
pub const SPHINCS_BYTE: u8 = 0x5F;

/// Marker byte of the classical signatures.
pub const CLASSICAL_BYTE: u8 = 0xEE;

/// Marker byte of the stateful hash-based signatures.
pub const HASH_BASED_BYTE: u8 = 0x1B;

/// Wire tag of the primary lattice family.
pub const SIG_FAMILY_DILITHIUM: u8 = 0;

/// Wire tag of the compact lattice family.
pub const SIG_FAMILY_FALCON: u8 = 1;

/// Wire tag of the stateless hash-based family.
pub const SIG_FAMILY_SPHINCS: u8 = 2;

/// Wire tag of the classical scheme.
pub const SIG_FAMILY_CLASSICAL: u8 = 3;

/// Wire tag of the hybrid scheme.
pub const SIG_FAMILY_HYBRID: u8 = 4;

/// Wire tag of the stateful hash-based family.
pub const SIG_FAMILY_HASH_BASED: u8 = 5;

/// Parameter set of the primary lattice signatures.
#[derive(Clone, Copy, Debug, PartialEq, Eq, Structural)]
pub enum DilithiumLevel {
    Level2,
    Level3,
    Level5,
}

/// Parameter set of the compact lattice signatures.
#[derive(Clone, Copy, Debug, PartialEq, Eq, Structural)]
pub enum FalconLevel {
    Level1,
    Level5,
}

/// Parameter set of the stateless hash-based signatures.
#[derive(Clone, Copy, Debug, PartialEq, Eq, Structural)]
pub enum SphincsLevel {
    Small,
    Fast,
}

/// Parameter set of the stateful hash-based signatures.
#[derive(Clone, Copy, Debug, PartialEq, Eq, Structural)]
pub enum HssLevel {
    Level1,
    Level2,
    Level3,
}

/// A signature scheme.
#[derive(Clone, Copy, Debug, PartialEq, Eq, Structural)]
pub enum SignatureScheme {
    /// The primary lattice scheme.
    Dilithium(DilithiumLevel),
    /// The compact lattice scheme.
    Falcon(FalconLevel),
    /// The stateless hash-based scheme.
    SphincsPlus(SphincsLevel),
    /// The classical scheme.
    Classical,
    /// A classical signature followed by a primary lattice signature at the
    /// highest level.
    Hybrid,
    /// The stateful hash-based scheme.
    HashBased(HssLevel),
}

/// A signature of one family over `msg`: `len` marker bytes, the first one
/// replaced by the checksum of the message.
pub open spec fn tagged(marker: u8, len: nat, msg: Seq<u8>) -> Seq<u8> {
    repeat(marker, len).update(0, checksum(msg))
}

impl SignatureScheme {
    /// Length of a signature of this scheme.
    pub open spec fn signature_len(self) -> nat {
        match self {
            SignatureScheme::Dilithium(DilithiumLevel::Level2) => 2420,
            SignatureScheme::Dilithium(DilithiumLevel::Level3) => 3293,
            SignatureScheme::Dilithium(DilithiumLevel::Level5) => 4595,
            SignatureScheme::Falcon(FalconLevel::Level1) => 666,
            SignatureScheme::Falcon(FalconLevel::Level5) => 1280,
            SignatureScheme::SphincsPlus(SphincsLevel::Small) => 8080,
            SignatureScheme::SphincsPlus(SphincsLevel::Fast) => 17088,
            SignatureScheme::Classical => 64,
            SignatureScheme::Hybrid => 4659,
            SignatureScheme::HashBased(HssLevel::Level1) => 3040,
            SignatureScheme::HashBased(HssLevel::Level2) => 6080,
            SignatureScheme::HashBased(HssLevel::Level3) => 9120,
        }
    }

    /// Length of a verification key of this scheme.
    pub open spec fn public_key_len(self) -> nat {
        match self {
            SignatureScheme::Dilithium(DilithiumLevel::Level2) => 1312,
            SignatureScheme::Dilithium(DilithiumLevel::Level3) => 1952,
            SignatureScheme::Dilithium(DilithiumLevel::Level5) => 2592,
            SignatureScheme::Falcon(FalconLevel::Level1) => 897,
            SignatureScheme::Falcon(FalconLevel::Level5) => 1793,
            SignatureScheme::SphincsPlus(_) => 32,
            SignatureScheme::Classical => 32,
            SignatureScheme::Hybrid => 2624,
            SignatureScheme::HashBased(_) => 60,
        }
    }

    /// Marker byte of this scheme's family; for the hybrid scheme, that of
    /// its lattice half.
    pub open spec fn marker(self) -> u8 {
        match self {
            SignatureScheme::Dilithium(_) => DILITHIUM_BYTE,
            SignatureScheme::Falcon(_) => FALCON_BYTE,
            SignatureScheme::SphincsPlus(_) => SPHINCS_BYTE,
            SignatureScheme::Classical => CLASSICAL_BYTE,
            SignatureScheme::Hybrid => DILITHIUM_BYTE,
            SignatureScheme::HashBased(_) => HASH_BASED_BYTE,
        }
    }

    /// The signature of this scheme over `msg`.
    pub open spec fn signature(self, msg: Seq<u8>) -> Seq<u8> {
        match self {
            SignatureScheme::Hybrid => tagged(CLASSICAL_BYTE, 64, msg) + tagged(
                DILITHIUM_BYTE,
                4595,
                msg,
            ),
            _ => tagged(self.marker(), self.signature_len(), msg),
        }
    }

    /// The scheme a pair of wire tags names, if the pairing is supported.
    pub open spec fn of_tag(family: u8, level: u8) -> Option<SignatureScheme> {
        if family == SIG_FAMILY_DILITHIUM && level == 2 {
            Some(SignatureScheme::Dilithium(DilithiumLevel::Level2))
        } else if family == SIG_FAMILY_DILITHIUM && level == 3 {
            Some(SignatureScheme::Dilithium(DilithiumLevel::Level3))
        } else if family == SIG_FAMILY_DILITHIUM && level == 5 {
            Some(SignatureScheme::Dilithium(DilithiumLevel::Level5))
        } else if family == SIG_FAMILY_FALCON && level == 1 {
            Some(SignatureScheme::Falcon(FalconLevel::Level1))
        } else if family == SIG_FAMILY_FALCON && level == 5 {
            Some(SignatureScheme::Falcon(FalconLevel::Level5))
        } else if family == SIG_FAMILY_SPHINCS && level == 0 {
            Some(SignatureScheme::SphincsPlus(SphincsLevel::Small))
        } else if family == SIG_FAMILY_SPHINCS && level == 1 {
            Some(SignatureScheme::SphincsPlus(SphincsLevel::Fast))
        } else if family == SIG_FAMILY_CLASSICAL && level == 0 {
            Some(SignatureScheme::Classical)
        } else if family == SIG_FAMILY_HYBRID && level == 0 {
            Some(SignatureScheme::Hybrid)
        } else if family == SIG_FAMILY_HASH_BASED && level == 1 {
            Some(SignatureScheme::HashBased(HssLevel::Level1))
        } else if family == SIG_FAMILY_HASH_BASED && level == 2 {
            Some(SignatureScheme::HashBased(HssLevel::Level2))
        } else if family == SIG_FAMILY_HASH_BASED && level == 3 {
            Some(SignatureScheme::HashBased(HssLevel::Level3))
        } else {
            None
        }
    }

    /// Resolves a pair of wire tags, refusing an unsupported pairing.
    pub fn from_tag(family: u8, level: u8) -> (res: Result<SignatureScheme, ProtocolError>)
        ensures
            match Self::of_tag(family, level) {
                Some(scheme) => res == Ok::<SignatureScheme, ProtocolError>(scheme),
                None => res == Err::<SignatureScheme, ProtocolError>(ProtocolError::UnknownScheme),
            },
    {
        if family == SIG_FAMILY_DILITHIUM && level == 2 {
            Ok(SignatureScheme::Dilithium(DilithiumLevel::Level2))
        } else if family == SIG_FAMILY_DILITHIUM && level == 3 {
            Ok(SignatureScheme::Dilithium(DilithiumLevel::Level3))
        } else if family == SIG_FAMILY_DILITHIUM && level == 5 {
            Ok(SignatureScheme::Dilithium(DilithiumLevel::Level5))
        } else if family == SIG_FAMILY_FALCON && level == 1 {
            Ok(SignatureScheme::Falcon(FalconLevel::Level1))
        } else if family == SIG_FAMILY_FALCON && level == 5 {
            Ok(SignatureScheme::Falcon(FalconLevel::Level5))
        } else if family == SIG_FAMILY_SPHINCS && level == 0 {
            Ok(SignatureScheme::SphincsPlus(SphincsLevel::Small))
        } else if family == SIG_FAMILY_SPHINCS && level == 1 {
            Ok(SignatureScheme::SphincsPlus(SphincsLevel::Fast))
        } else if family == SIG_FAMILY_CLASSICAL && level == 0 {
            Ok(SignatureScheme::Classical)
        } else if family == SIG_FAMILY_HYBRID && level == 0 {
            Ok(SignatureScheme::Hybrid)
        } else if family == SIG_FAMILY_HASH_BASED && level == 1 {
            Ok(SignatureScheme::HashBased(HssLevel::Level1))
        } else if family == SIG_FAMILY_HASH_BASED && level == 2 {
            Ok(SignatureScheme::HashBased(HssLevel::Level2))
        } else if family == SIG_FAMILY_HASH_BASED && level == 3 {
            Ok(SignatureScheme::HashBased(HssLevel::Level3))
        } else {
            Err(ProtocolError::UnknownScheme)
        }
    }

    /// Length of a signature of this scheme.
    pub fn sig_len(&self) -> (len: usize)
        ensures
            len == self.signature_len(),
    {
        match self {
            SignatureScheme::Dilithium(DilithiumLevel::Level2) => 2420,
            SignatureScheme::Dilithium(DilithiumLevel::Level3) => 3293,
            SignatureScheme::Dilithium(DilithiumLevel::Level5) => 4595,
            SignatureScheme::Falcon(FalconLevel::Level1) => 666,
            SignatureScheme::Falcon(FalconLevel::Level5) => 1280,
            SignatureScheme::SphincsPlus(SphincsLevel::Small) => 8080,
            SignatureScheme::SphincsPlus(SphincsLevel::Fast) => 17088,
            SignatureScheme::Classical => 64,
            SignatureScheme::Hybrid => 4659,
            SignatureScheme::HashBased(HssLevel::Level1) => 3040,
            SignatureScheme::HashBased(HssLevel::Level2) => 6080,
            SignatureScheme::HashBased(HssLevel::Level3) => 9120,
        }
    }

    /// Length of a verification key of this scheme.
    pub fn pk_len(&self) -> (len: usize)
        ensures
            len == self.public_key_len(),
    {
        match self {
            SignatureScheme::Dilithium(DilithiumLevel::Level2) => 1312,
            SignatureScheme::Dilithium(DilithiumLevel::Level3) => 1952,
            SignatureScheme::Dilithium(DilithiumLevel::Level5) => 2592,
            SignatureScheme::Falcon(FalconLevel::Level1) => 897,
            SignatureScheme::Falcon(FalconLevel::Level5) => 1793,
            SignatureScheme::SphincsPlus(_) => 32,
            SignatureScheme::Classical => 32,
            SignatureScheme::Hybrid => 2624,
            SignatureScheme::HashBased(_) => 60,
        }
    }

    /// Verification-key and signature lengths, for a wire parser.
    pub fn wire_size(&self) -> (sizes: (usize, usize))
        ensures
            sizes.0 == self.public_key_len(),
            sizes.1 == self.signature_len(),
    {
        (self.pk_len(), self.sig_len())
    }
}

/// The signature of a scheme has that scheme's length.
pub proof fn lemma_signature_len(scheme: SignatureScheme, msg: Seq<u8>)
    ensures
        scheme.signature(msg).len() == scheme.signature_len(),
{
}

/// Two messages of one length that differ in exactly one byte never share a
/// signature, whatever the scheme.
pub proof fn lemma_signature_binds_message(scheme: SignatureScheme, msg: Seq<u8>, i: int, b: u8)
    requires
        0 <= i < msg.len(),
        b != msg[i],
    ensures
        scheme.signature(msg.update(i, b)) != scheme.signature(msg),
{
    crate::bytes::lemma_checksum_detects_single_byte(msg, i, b);
    let s2 = scheme.signature(msg.update(i, b));
    assert(s2[0] == checksum(msg.update(i, b)));
}

/// Builds the signature of one family over `msg`.
fn sign_tagged(marker: u8, len: usize, msg: &[u8]) -> (sig: Vec<u8>)
    requires
        len > 0,
    ensures
        sig@ == tagged(marker, len as nat, msg@),
{
    let mut sig = filled(marker, len);
    sig.set(0, checksum_of(msg));
    sig
}

/// Stand-in provider of the primary lattice signatures.
#[derive(Clone, Copy, Debug)]
pub struct DilithiumShield {
    pub level: DilithiumLevel,
}

/// Stand-in provider of the compact lattice signatures.
#[derive(Clone, Copy, Debug)]
pub struct FalconShield {
    pub level: FalconLevel,
}

/// Stand-in provider of the stateless hash-based signatures.
#[derive(Clone, Copy, Debug)]
pub struct SphincsShield {
    pub level: SphincsLevel,
}

/// Stand-in provider of the classical signatures.
#[derive(Clone, Copy, Debug)]
pub struct ClassicalShield {}

/// Stand-in provider of the stateful hash-based signatures.
#[derive(Clone, Copy, Debug)]
pub struct HashBasedShield {
    pub level: HssLevel,
}

impl DilithiumShield {
    /// A provider at the given level.
    pub fn new(level: DilithiumLevel) -> (shield: DilithiumShield)
        ensures
            shield.level == level,
    {
        DilithiumShield { level }
    }

    /// Signs `msg`.
    pub fn sign(&self, msg: &[u8]) -> (sig: Vec<u8>)
        ensures
            sig@ == SignatureScheme::Dilithium(self.level).signature(msg@),
    {
        sign_tagged(DILITHIUM_BYTE, SignatureScheme::Dilithium(self.level).sig_len(), msg)
    }
}

impl FalconShield {
    /// A provider at the given level.
    pub fn new(level: FalconLevel) -> (shield: FalconShield)
        ensures
            shield.level == level,
    {
        FalconShield { level }
    }

    /// Signs `msg`.
    pub fn sign(&self, msg: &[u8]) -> (sig: Vec<u8>)
        ensures
            sig@ == SignatureScheme::Falcon(self.level).signature(msg@),
    {
        sign_tagged(FALCON_BYTE, SignatureScheme::Falcon(self.level).sig_len(), msg)
    }
}

impl SphincsShield {
    /// A provider at the given level.
    pub fn new(level: SphincsLevel) -> (shield: SphincsShield)
        ensures
            shield.level == level,
    {
        SphincsShield { level }
    }

    /// Signs `msg`.
    pub fn sign(&self, msg: &[u8]) -> (sig: Vec<u8>)
        ensures
            sig@ == SignatureScheme::SphincsPlus(self.level).signature(msg@),
    {
        sign_tagged(SPHINCS_BYTE, SignatureScheme::SphincsPlus(self.level).sig_len(), msg)
    }
}

impl ClassicalShield {
    /// The provider of the classical scheme.
    pub fn new() -> (shield: ClassicalShield) {
        ClassicalShield {  }
    }

    /// Signs `msg`.
    pub fn sign(&self, msg: &[u8]) -> (sig: Vec<u8>)
        ensures
            sig@ == SignatureScheme::Classical.signature(msg@),
    {
        sign_tagged(CLASSICAL_BYTE, 64, msg)
    }
}

impl HashBasedShield {
    /// A provider at the given level.
    pub fn new(level: HssLevel) -> (shield: HashBasedShield)
        ensures
            shield.level == level,
    {
        HashBasedShield { level }
    }

    /// Signs `msg`.
    pub fn sign(&self, msg: &[u8]) -> (sig: Vec<u8>)
        ensures
            sig@ == SignatureScheme::HashBased(self.level).signature(msg@),
    {
        sign_tagged(HASH_BASED_BYTE, SignatureScheme::HashBased(self.level).sig_len(), msg)
    }
}

/// Holds one provider of each family, resolves requests to a scheme, and
/// counts the provider calls made through it.
#[derive(Clone, Copy, Debug)]
pub struct SignatureSelector {
    pub dilithium: DilithiumShield,
    pub falcon: FalconShield,
    pub sphincs: SphincsShield,
    pub classical: ClassicalShield,
    pub hashbased: HashBasedShield,
    pub calls: u64,
}

impl SignatureSelector {
    /// The selector over the five families that has made no call yet.
    pub open spec fn fresh(pq_level: DilithiumLevel) -> SignatureSelector {
        SignatureSelector {
            dilithium: DilithiumShield { level: pq_level },
            falcon: FalconShield { level: FalconLevel::Level5 },
            sphincs: SphincsShield { level: SphincsLevel::Small },
            classical: ClassicalShield {  },
            hashbased: HashBasedShield { level: HssLevel::Level3 },
            calls: 0,
        }
    }

    /// A selector over the five families that has made no call yet.
    pub fn new(pq_level: DilithiumLevel) -> (selector: SignatureSelector)
        ensures
            selector == Self::fresh(pq_level),
    {
        SignatureSelector {
            dilithium: DilithiumShield::new(pq_level),
            falcon: FalconShield::new(FalconLevel::Level5),
            sphincs: SphincsShield::new(SphincsLevel::Small),
            classical: ClassicalShield::new(),
            hashbased: HashBasedShield::new(HssLevel::Level3),
            calls: 0,
        }
    }

    /// The scheme chosen when none is requested: the primary lattice scheme
    /// at its highest level.
    pub open spec fn best() -> SignatureScheme {
        SignatureScheme::Dilithium(DilithiumLevel::Level5)
    }

    /// The scheme a request resolves to.
    pub open spec fn resolved(requested: Option<SignatureScheme>) -> SignatureScheme {
        match requested {
            Some(scheme) => scheme,
            None => Self::best(),
        }
    }

    /// This selector after one more provider call.
    pub open spec fn counted(self) -> SignatureSelector {
        SignatureSelector { calls: bump(self.calls), ..self }
    }

    /// The default scheme.
    pub fn select_best(&self) -> (scheme: SignatureScheme)
        ensures
            scheme == Self::best(),
    {
        SignatureScheme::Dilithium(DilithiumLevel::Level5)
    }

    /// The requested scheme if there is one, else the default.
    pub fn resolve(&self, requested: Option<SignatureScheme>) -> (scheme: SignatureScheme)
        ensures
            scheme == Self::resolved(requested),
    {
        match requested {
            Some(scheme) => scheme,
            None => self.select_best(),
        }
    }

    /// Number of provider calls made through this selector.
    pub fn call_count(&self) -> (calls: u64)
        ensures
            calls == self.calls,
    {
        self.calls
    }

    /// Verification-key and signature lengths of the scheme a pair of wire
    /// tags names, or `UnknownScheme` for an unsupported pairing.
    pub fn wire_size(&self, family: u8, level: u8) -> (res: Result<(usize, usize), ProtocolError>)
        ensures
            match SignatureScheme::of_tag(family, level) {
                Some(scheme) => res matches Ok(sizes) && sizes.0 == scheme.public_key_len()
                    && sizes.1 == scheme.signature_len(),
                None => res == Err::<(usize, usize), ProtocolError>(ProtocolError::UnknownScheme),
            },
    {
        match SignatureScheme::from_tag(family, level) {
            Ok(scheme) => Ok(scheme.wire_size()),
            Err(e) => Err(e),
        }
    }

    /// Signs `msg` under the resolved scheme.
    pub fn sign(&mut self, scheme: Option<SignatureScheme>, msg: &[u8]) -> (sig: Vec<u8>)
        ensures
            sig@ == Self::resolved(scheme).signature(msg@),
            *final(self) == old(self).counted(),
    {
        self.calls = bumped(self.calls);
        match self.resolve(scheme) {
            SignatureScheme::Dilithium(level) => DilithiumShield::new(level).sign(msg),
            SignatureScheme::Falcon(level) => FalconShield::new(level).sign(msg),
            SignatureScheme::SphincsPlus(level) => SphincsShield::new(level).sign(msg),
            SignatureScheme::Classical => self.classical.sign(msg),
            SignatureScheme::Hybrid => {
                let mut sig = self.classical.sign(msg);
                let sig_pq = DilithiumShield::new(DilithiumLevel::Level5).sign(msg);
                append(&mut sig, sig_pq.as_slice());
                sig
            },
            SignatureScheme::HashBased(level) => HashBasedShield::new(level).sign(msg),
        }
    }

    /// Whether `sig` is the signature of the resolved scheme over `msg`.
    pub fn verify(&mut self, scheme: Option<SignatureScheme>, msg: &[u8], sig: &[u8]) -> (ok: bool)
        ensures
            ok == (sig@ == Self::resolved(scheme).signature(msg@)),
            *final(self) == old(self).counted(),
    {
        let sch = self.resolve(scheme);
        if sig.len() != sch.sig_len() {
            self.calls = bumped(self.calls);
            return false;
        }
        let expected = self.sign(Some(sch), msg);
        same_bytes(sig, expected.as_slice())
    }
}

} // verus!
