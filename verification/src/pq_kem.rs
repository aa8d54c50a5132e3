//! Key-encapsulation schemes: their wire sizes, a stand-in provider for each
//! family, and the selector that resolves a request to a concrete scheme.
//!
//! The providers here are deterministic stand-ins: every artefact has the
//! length the real scheme fixes and is filled with one marker byte. They let
//! the protocol engine be exercised end to end; they keep no secret.

use vstd::prelude::*;
use crate::bytes::filled;
use crate::bytes::repeat;
use crate::error::ProtocolError;

verus! {

/// Length in bytes of every shared secret.
pub const SHARED_SECRET_LEN: usize = 32;

/// Marker byte of lattice key material.
pub const MLKEM_KEY_BYTE: u8 = 0x4D;

/// Marker byte of the classical half of a hybrid exchange.
pub const HYBRID_KEY_BYTE: u8 = 0x48;

/// Marker byte of code-based key material.
pub const MCELIECE_KEY_BYTE: u8 = 0x43;

/// Marker byte of every ciphertext.
pub const CIPHERTEXT_BYTE: u8 = 0xC7;

/// Marker byte of every shared secret.
pub const SHARED_SECRET_BYTE: u8 = 0x55;

/// Wire tag of the lattice family.
pub const KEM_FAMILY_MLKEM: u8 = 0;

/// Wire tag of the hybrid family.
pub const KEM_FAMILY_HYBRID: u8 = 1;

/// Wire tag of the code-based family.
pub const KEM_FAMILY_MCELIECE: u8 = 2;

/// Parameter set of the lattice scheme.
#[derive(Clone, Copy, Debug, PartialEq, Eq, Structural)]
pub enum KemLevel {
    Kem512,
    Kem768,
    Kem1024,
}

/// A key-exchange scheme. Fixed for the lifetime of a session.
#[derive(Clone, Copy, Debug, PartialEq, Eq, Structural)]
pub enum KeyExchangeScheme {
    /// The primary lattice scheme at a given level.
    MlKem(KemLevel),
    /// The classical-shaped exchange that runs beside a lattice scheme.
    Hybrid,
    /// The code-based scheme with large keys.
    McEliece,
}

impl KemLevel {
    /// Length of a public key at this level.
    pub open spec fn public_key_len(self) -> nat {
        match self {
            KemLevel::Kem512 => 800,
            KemLevel::Kem768 => 1184,
            KemLevel::Kem1024 => 1568,
        }
    }

    /// Length of a secret key at this level.
    pub open spec fn secret_key_len(self) -> nat {
        match self {
            KemLevel::Kem512 => 1632,
            KemLevel::Kem768 => 2400,
            KemLevel::Kem1024 => 3168,
        }
    }

    /// Length of a ciphertext at this level.
    pub open spec fn ciphertext_len(self) -> nat {
        match self {
            KemLevel::Kem512 => 768,
            KemLevel::Kem768 => 1088,
            KemLevel::Kem1024 => 1568,
        }
    }
}

impl KeyExchangeScheme {
    /// Length of a public key of this scheme.
    pub open spec fn public_key_len(self) -> nat {
        match self {
            KeyExchangeScheme::MlKem(level) => level.public_key_len(),
            KeyExchangeScheme::Hybrid => 32,
            KeyExchangeScheme::McEliece => 261120,
        }
    }

    /// Length of a secret key of this scheme.
    pub open spec fn secret_key_len(self) -> nat {
        match self {
            KeyExchangeScheme::MlKem(level) => level.secret_key_len(),
            KeyExchangeScheme::Hybrid => 32,
            KeyExchangeScheme::McEliece => 6496,
        }
    }

    /// Length of a ciphertext of this scheme.
    pub open spec fn ciphertext_len(self) -> nat {
        match self {
            KeyExchangeScheme::MlKem(level) => level.ciphertext_len(),
            KeyExchangeScheme::Hybrid => 1216,
            KeyExchangeScheme::McEliece => 128,
        }
    }

    /// Marker byte of this scheme's key material.
    pub open spec fn key_byte(self) -> u8 {
        match self {
            KeyExchangeScheme::MlKem(_) => MLKEM_KEY_BYTE,
            KeyExchangeScheme::Hybrid => HYBRID_KEY_BYTE,
            KeyExchangeScheme::McEliece => MCELIECE_KEY_BYTE,
        }
    }

    /// The public key that key generation yields.
    pub open spec fn public_key(self) -> Seq<u8> {
        repeat(self.key_byte(), self.public_key_len())
    }

    /// The secret key that key generation yields.
    pub open spec fn secret_key(self) -> Seq<u8> {
        repeat(self.key_byte(), self.secret_key_len())
    }

    /// The ciphertext that encapsulation yields.
    pub open spec fn ciphertext(self) -> Seq<u8> {
        repeat(CIPHERTEXT_BYTE, self.ciphertext_len())
    }

    /// The scheme a pair of wire tags names, if the pairing is supported.
    /// The lattice family takes the levels 1, 3 and 5; the families without
    /// levels take 0 only.
    pub open spec fn of_tag(family: u8, level: u8) -> Option<KeyExchangeScheme> {
        if family == KEM_FAMILY_MLKEM && level == 1 {
            Some(KeyExchangeScheme::MlKem(KemLevel::Kem512))
        } else if family == KEM_FAMILY_MLKEM && level == 3 {
            Some(KeyExchangeScheme::MlKem(KemLevel::Kem768))
        } else if family == KEM_FAMILY_MLKEM && level == 5 {
            Some(KeyExchangeScheme::MlKem(KemLevel::Kem1024))
        } else if family == KEM_FAMILY_HYBRID && level == 0 {
            Some(KeyExchangeScheme::Hybrid)
        } else if family == KEM_FAMILY_MCELIECE && level == 0 {
            Some(KeyExchangeScheme::McEliece)
        } else {
            None
        }
    }

    /// Resolves a pair of wire tags, refusing an unsupported pairing.
    pub fn from_tag(family: u8, level: u8) -> (res: Result<KeyExchangeScheme, ProtocolError>)
        ensures
            match Self::of_tag(family, level) {
                Some(scheme) => res == Ok::<KeyExchangeScheme, ProtocolError>(scheme),
                None => res == Err::<KeyExchangeScheme, ProtocolError>(
                    ProtocolError::UnknownScheme,
                ),
            },
    {
        if family == KEM_FAMILY_MLKEM && level == 1 {
            Ok(KeyExchangeScheme::MlKem(KemLevel::Kem512))
        } else if family == KEM_FAMILY_MLKEM && level == 3 {
            Ok(KeyExchangeScheme::MlKem(KemLevel::Kem768))
        } else if family == KEM_FAMILY_MLKEM && level == 5 {
            Ok(KeyExchangeScheme::MlKem(KemLevel::Kem1024))
        } else if family == KEM_FAMILY_HYBRID && level == 0 {
            Ok(KeyExchangeScheme::Hybrid)
        } else if family == KEM_FAMILY_MCELIECE && level == 0 {
            Ok(KeyExchangeScheme::McEliece)
        } else {
            Err(ProtocolError::UnknownScheme)
        }
    }

    /// Length of a public key of this scheme.
    pub fn pk_len(&self) -> (len: usize)
        ensures
            len == self.public_key_len(),
    {
        match self {
            KeyExchangeScheme::MlKem(KemLevel::Kem512) => 800,
            KeyExchangeScheme::MlKem(KemLevel::Kem768) => 1184,
            KeyExchangeScheme::MlKem(KemLevel::Kem1024) => 1568,
            KeyExchangeScheme::Hybrid => 32,
            KeyExchangeScheme::McEliece => 261120,
        }
    }

    /// Length of a secret key of this scheme.
    pub fn sk_len(&self) -> (len: usize)
        ensures
            len == self.secret_key_len(),
    {
        match self {
            KeyExchangeScheme::MlKem(KemLevel::Kem512) => 1632,
            KeyExchangeScheme::MlKem(KemLevel::Kem768) => 2400,
            KeyExchangeScheme::MlKem(KemLevel::Kem1024) => 3168,
            KeyExchangeScheme::Hybrid => 32,
            KeyExchangeScheme::McEliece => 6496,
        }
    }

    /// Length of a ciphertext of this scheme.
    pub fn ct_len(&self) -> (len: usize)
        ensures
            len == self.ciphertext_len(),
    {
        match self {
            KeyExchangeScheme::MlKem(KemLevel::Kem512) => 768,
            KeyExchangeScheme::MlKem(KemLevel::Kem768) => 1088,
            KeyExchangeScheme::MlKem(KemLevel::Kem1024) => 1568,
            KeyExchangeScheme::Hybrid => 1216,
            KeyExchangeScheme::McEliece => 128,
        }
    }

    /// Public-key and ciphertext lengths, for a wire parser.
    pub fn wire_size(&self) -> (sizes: (usize, usize))
        ensures
            sizes.0 == self.public_key_len(),
            sizes.1 == self.ciphertext_len(),
    {
        (self.pk_len(), self.ct_len())
    }
}

/// Stand-in provider of the lattice scheme.
#[derive(Clone, Copy, Debug)]
pub struct MlKemShield {
    pub level: KemLevel,
}

/// Stand-in provider of the classical half of a hybrid exchange.
#[derive(Clone, Copy, Debug)]
pub struct HybridShield {}

/// Stand-in provider of the code-based scheme.
#[derive(Clone, Copy, Debug)]
pub struct McElieceShield {}

impl MlKemShield {
    /// A provider at the given level.
    pub fn new(level: KemLevel) -> (shield: MlKemShield)
        ensures
            shield.level == level,
    {
        MlKemShield { level }
    }

    /// The scheme this provider serves.
    pub open spec fn scheme(self) -> KeyExchangeScheme {
        KeyExchangeScheme::MlKem(self.level)
    }

    /// Yields a public key and a secret key.
    pub fn keygen(&self) -> (keys: (Vec<u8>, Vec<u8>))
        ensures
            keys.0@ == self.scheme().public_key(),
            keys.1@ == self.scheme().secret_key(),
    {
        let scheme = KeyExchangeScheme::MlKem(self.level);
        (filled(MLKEM_KEY_BYTE, scheme.pk_len()), filled(MLKEM_KEY_BYTE, scheme.sk_len()))
    }

    /// Yields a ciphertext for the holder of `pk` and the secret it carries.
    pub fn encapsulate(&self, pk: &[u8]) -> (out: (Vec<u8>, Vec<u8>))
        ensures
            out.0@ == self.scheme().ciphertext(),
            out.1@ == shared_secret(),
    {
        let scheme = KeyExchangeScheme::MlKem(self.level);
        (filled(CIPHERTEXT_BYTE, scheme.ct_len()), filled(SHARED_SECRET_BYTE, SHARED_SECRET_LEN))
    }

    /// Recovers the secret that a ciphertext carries.
    pub fn decapsulate(&self, sk: &[u8], ct: &[u8]) -> (secret: Vec<u8>)
        ensures
            secret@ == shared_secret(),
    {
        filled(SHARED_SECRET_BYTE, SHARED_SECRET_LEN)
    }
}

impl HybridShield {
    /// The provider of the classical half.
    pub fn new() -> (shield: HybridShield) {
        HybridShield {  }
    }

    /// Yields a public key and a secret key.
    pub fn keygen(&self) -> (keys: (Vec<u8>, Vec<u8>))
        ensures
            keys.0@ == KeyExchangeScheme::Hybrid.public_key(),
            keys.1@ == KeyExchangeScheme::Hybrid.secret_key(),
    {
        (filled(HYBRID_KEY_BYTE, 32), filled(HYBRID_KEY_BYTE, 32))
    }

    /// Yields a ciphertext for the holder of `pk` and the secret it carries.
    pub fn encapsulate(&self, pk: &[u8]) -> (out: (Vec<u8>, Vec<u8>))
        ensures
            out.0@ == KeyExchangeScheme::Hybrid.ciphertext(),
            out.1@ == shared_secret(),
    {
        (filled(CIPHERTEXT_BYTE, 1216), filled(SHARED_SECRET_BYTE, SHARED_SECRET_LEN))
    }

    /// Recovers the secret that a ciphertext carries.
    pub fn decapsulate(&self, sk: &[u8], ct: &[u8]) -> (secret: Vec<u8>)
        ensures
            secret@ == shared_secret(),
    {
        filled(SHARED_SECRET_BYTE, SHARED_SECRET_LEN)
    }
}

impl McElieceShield {
    /// The provider of the code-based scheme.
    pub fn new() -> (shield: McElieceShield) {
        McElieceShield {  }
    }

    /// Yields a public key and a secret key.
    pub fn keygen(&self) -> (keys: (Vec<u8>, Vec<u8>))
        ensures
            keys.0@ == KeyExchangeScheme::McEliece.public_key(),
            keys.1@ == KeyExchangeScheme::McEliece.secret_key(),
    {
        (filled(MCELIECE_KEY_BYTE, 261120), filled(MCELIECE_KEY_BYTE, 6496))
    }

    /// Yields a ciphertext for the holder of `pk` and the secret it carries.
    pub fn encapsulate(&self, pk: &[u8]) -> (out: (Vec<u8>, Vec<u8>))
        ensures
            out.0@ == KeyExchangeScheme::McEliece.ciphertext(),
            out.1@ == shared_secret(),
    {
        (filled(CIPHERTEXT_BYTE, 128), filled(SHARED_SECRET_BYTE, SHARED_SECRET_LEN))
    }

    /// Recovers the secret that a ciphertext carries.
    pub fn decapsulate(&self, sk: &[u8], ct: &[u8]) -> (secret: Vec<u8>)
        ensures
            secret@ == shared_secret(),
    {
        filled(SHARED_SECRET_BYTE, SHARED_SECRET_LEN)
    }
}

/// The secret that every encapsulation of the stand-in providers carries.
pub open spec fn shared_secret() -> Seq<u8> {
    repeat(SHARED_SECRET_BYTE, SHARED_SECRET_LEN as nat)
}

/// A call count one higher, held at the largest value once it is reached.
pub open spec fn bump(calls: u64) -> u64 {
    if calls < u64::MAX {
        (calls + 1) as u64
    } else {
        calls
    }
}

/// Counts one more call.
pub fn bumped(calls: u64) -> (next: u64)
    ensures
        next == bump(calls),
{
    if calls < u64::MAX {
        calls + 1
    } else {
        calls
    }
}

/// Holds one provider of each family, resolves requests to a scheme, and
/// counts the provider calls made through it.
#[derive(Clone, Copy, Debug)]
pub struct KemSelector {
    pub mlkem: MlKemShield,
    pub hybrid: HybridShield,
    pub mceliece: McElieceShield,
    pub calls: u64,
}

impl KemSelector {
    /// The selector over the three families that has made no call yet.
    pub open spec fn fresh(kem_level: KemLevel) -> KemSelector {
        KemSelector {
            mlkem: MlKemShield { level: kem_level },
            hybrid: HybridShield {  },
            mceliece: McElieceShield {  },
            calls: 0,
        }
    }

    /// A selector over the three families that has made no call yet.
    pub fn new(kem_level: KemLevel) -> (selector: KemSelector)
        ensures
            selector == Self::fresh(kem_level),
    {
        KemSelector {
            mlkem: MlKemShield::new(kem_level),
            hybrid: HybridShield::new(),
            mceliece: McElieceShield::new(),
            calls: 0,
        }
    }

    /// The scheme chosen when none is requested: the lattice scheme at its
    /// highest level.
    pub open spec fn best() -> KeyExchangeScheme {
        KeyExchangeScheme::MlKem(KemLevel::Kem1024)
    }

    /// The scheme a request resolves to.
    pub open spec fn resolved(requested: Option<KeyExchangeScheme>) -> KeyExchangeScheme {
        match requested {
            Some(scheme) => scheme,
            None => Self::best(),
        }
    }

    /// This selector after one more provider call.
    pub open spec fn counted(self) -> KemSelector {
        KemSelector { calls: bump(self.calls), ..self }
    }

    /// The default scheme.
    pub fn select_best(&self) -> (scheme: KeyExchangeScheme)
        ensures
            scheme == Self::best(),
    {
        KeyExchangeScheme::MlKem(KemLevel::Kem1024)
    }

    /// The requested scheme if there is one, else the default.
    pub fn resolve(&self, requested: Option<KeyExchangeScheme>) -> (scheme: KeyExchangeScheme)
        ensures
            scheme == Self::resolved(requested),
    {
        match requested {
            Some(scheme) => scheme,
            None => self.select_best(),
        }
    }

    /// Number of provider calls made through this selector.
    pub fn call_count(&self) -> (calls: u64)
        ensures
            calls == self.calls,
    {
        self.calls
    }

    /// Public-key and ciphertext lengths of the scheme a pair of wire tags
    /// names, or `UnknownScheme` for an unsupported pairing.
    pub fn wire_size(&self, family: u8, level: u8) -> (res: Result<(usize, usize), ProtocolError>)
        ensures
            match KeyExchangeScheme::of_tag(family, level) {
                Some(scheme) => res matches Ok(sizes) && sizes.0 == scheme.public_key_len()
                    && sizes.1 == scheme.ciphertext_len(),
                None => res == Err::<(usize, usize), ProtocolError>(ProtocolError::UnknownScheme),
            },
    {
        match KeyExchangeScheme::from_tag(family, level) {
            Ok(scheme) => Ok(scheme.wire_size()),
            Err(e) => Err(e),
        }
    }

    /// Generates a key pair of the resolved scheme.
    pub fn keygen(&mut self, scheme: Option<KeyExchangeScheme>) -> (keys: (Vec<u8>, Vec<u8>))
        ensures
            keys.0@ == Self::resolved(scheme).public_key(),
            keys.1@ == Self::resolved(scheme).secret_key(),
            *final(self) == old(self).counted(),
    {
        self.calls = bumped(self.calls);
        match self.resolve(scheme) {
            KeyExchangeScheme::MlKem(level) => MlKemShield::new(level).keygen(),
            KeyExchangeScheme::Hybrid => self.hybrid.keygen(),
            KeyExchangeScheme::McEliece => self.mceliece.keygen(),
        }
    }

    /// Encapsulates to `pk` under the resolved scheme.
    pub fn encapsulate(&mut self, scheme: Option<KeyExchangeScheme>, pk: &[u8]) -> (out: (
        Vec<u8>,
        Vec<u8>,
    ))
        ensures
            out.0@ == Self::resolved(scheme).ciphertext(),
            out.1@ == shared_secret(),
            *final(self) == old(self).counted(),
    {
        self.calls = bumped(self.calls);
        match self.resolve(scheme) {
            KeyExchangeScheme::MlKem(level) => MlKemShield::new(level).encapsulate(pk),
            KeyExchangeScheme::Hybrid => self.hybrid.encapsulate(pk),
            KeyExchangeScheme::McEliece => self.mceliece.encapsulate(pk),
        }
    }

    /// Decapsulates `ct` with `sk` under the resolved scheme.
    pub fn decapsulate(&mut self, scheme: Option<KeyExchangeScheme>, sk: &[u8], ct: &[u8]) -> (secret:
        Vec<u8>)
        ensures
            secret@ == shared_secret(),
            *final(self) == old(self).counted(),
    {
        self.calls = bumped(self.calls);
        match self.resolve(scheme) {
            KeyExchangeScheme::MlKem(level) => MlKemShield::new(level).decapsulate(sk, ct),
            KeyExchangeScheme::Hybrid => self.hybrid.decapsulate(sk, ct),
            KeyExchangeScheme::McEliece => self.mceliece.decapsulate(sk, ct),
        }
    }
}

} // verus!
