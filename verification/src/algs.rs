use vstd::prelude::*;

verus! {

use crate::err::AgileHpkeError;

/// The closed set of authenticated-encryption algorithms the registry knows.
#[derive(Clone, Copy, Debug, PartialEq, Eq, Structural)]
pub enum AeadAlg {
    AesGcm128,
    AesGcm256,
    ChaCha20Poly1305,
}

impl AeadAlg {
    /// The canonical name of the algorithm.
    pub open spec fn spec_name(self) -> &'static str {
        match self {
            AeadAlg::AesGcm128 => "AesGcm128",
            AeadAlg::AesGcm256 => "AesGcm256",
            AeadAlg::ChaCha20Poly1305 => "ChaCha20Poly1305",
        }
    }

    pub fn name(&self) -> (r: &'static str)
        ensures
            r == self.spec_name(),
    {
        match self {
            AeadAlg::AesGcm128 => "AesGcm128",
            AeadAlg::AesGcm256 => "AesGcm256",
            AeadAlg::ChaCha20Poly1305 => "ChaCha20Poly1305",
        }
    }

    /// The stable 16-bit wire identifier of the algorithm.
    pub open spec fn spec_to_wire_id(self) -> u16 {
        match self {
            AeadAlg::AesGcm128 => 0x01,
            AeadAlg::AesGcm256 => 0x02,
            AeadAlg::ChaCha20Poly1305 => 0x03,
        }
    }

    pub fn to_wire_id(&self) -> (r: u16)
        ensures
            r == self.spec_to_wire_id(),
    {
        match self {
            AeadAlg::AesGcm128 => 0x01,
            AeadAlg::AesGcm256 => 0x02,
            AeadAlg::ChaCha20Poly1305 => 0x03,
        }
    }

    /// Which algorithm a wire identifier denotes; an id outside the closed
    /// set is rejected with `UnknownAlgIdent`.
    pub open spec fn spec_from_wire_id(id: u16) -> Result<AeadAlg, AgileHpkeError> {
        if id == 0x01 {
            Ok(AeadAlg::AesGcm128)
        } else if id == 0x02 {
            Ok(AeadAlg::AesGcm256)
        } else if id == 0x03 {
            Ok(AeadAlg::ChaCha20Poly1305)
        } else {
            Err(AgileHpkeError::UnknownAlgIdent("AeadAlg", id))
        }
    }

    pub fn from_wire_id(id: u16) -> (r: Result<AeadAlg, AgileHpkeError>)
        ensures
            r == AeadAlg::spec_from_wire_id(id),
    {
        if id == 0x01 {
            Ok(AeadAlg::AesGcm128)
        } else if id == 0x02 {
            Ok(AeadAlg::AesGcm256)
        } else if id == 0x03 {
            Ok(AeadAlg::ChaCha20Poly1305)
        } else {
            Err(AgileHpkeError::UnknownAlgIdent("AeadAlg", id))
        }
    }

    /// The cipher's key length in bytes.
    pub open spec fn spec_key_len(self) -> nat {
        match self {
            AeadAlg::AesGcm128 => 16,
            AeadAlg::AesGcm256 => 32,
            AeadAlg::ChaCha20Poly1305 => 32,
        }
    }

    pub fn key_len(&self) -> (r: usize)
        ensures
            r == self.spec_key_len(),
    {
        match self {
            AeadAlg::AesGcm128 => 16,
            AeadAlg::AesGcm256 => 32,
            AeadAlg::ChaCha20Poly1305 => 32,
        }
    }

    /// All three ciphers take a 96-bit nonce.
    pub fn nonce_len(&self) -> (r: usize)
        ensures
            r == 12,
    {
        12
    }

    /// All three ciphers produce a 128-bit detached authentication tag.
    pub fn tag_len(&self) -> (r: usize)
        ensures
            r == 16,
    {
        16
    }
}

/// The closed set of key-derivation algorithms the registry knows.
#[derive(Clone, Copy, Debug, PartialEq, Eq, Structural)]
pub enum KdfAlg {
    HkdfSha256,
    HkdfSha384,
    HkdfSha512,
}

impl KdfAlg {
    /// The canonical name of the algorithm.
    pub open spec fn spec_name(self) -> &'static str {
        match self {
            KdfAlg::HkdfSha256 => "HkdfSha256",
            KdfAlg::HkdfSha384 => "HkdfSha384",
            KdfAlg::HkdfSha512 => "HkdfSha512",
        }
    }

    pub fn name(&self) -> (r: &'static str)
        ensures
            r == self.spec_name(),
    {
        match self {
            KdfAlg::HkdfSha256 => "HkdfSha256",
            KdfAlg::HkdfSha384 => "HkdfSha384",
            KdfAlg::HkdfSha512 => "HkdfSha512",
        }
    }

    /// The stable 16-bit wire identifier of the algorithm.
    pub open spec fn spec_to_wire_id(self) -> u16 {
        match self {
            KdfAlg::HkdfSha256 => 0x01,
            KdfAlg::HkdfSha384 => 0x02,
            KdfAlg::HkdfSha512 => 0x03,
        }
    }

    pub fn to_wire_id(&self) -> (r: u16)
        ensures
            r == self.spec_to_wire_id(),
    {
        match self {
            KdfAlg::HkdfSha256 => 0x01,
            KdfAlg::HkdfSha384 => 0x02,
            KdfAlg::HkdfSha512 => 0x03,
        }
    }

    /// Which algorithm a wire identifier denotes; an id outside the closed
    /// set is rejected with `UnknownAlgIdent`.
    pub open spec fn spec_from_wire_id(id: u16) -> Result<KdfAlg, AgileHpkeError> {
        if id == 0x01 {
            Ok(KdfAlg::HkdfSha256)
        } else if id == 0x02 {
            Ok(KdfAlg::HkdfSha384)
        } else if id == 0x03 {
            Ok(KdfAlg::HkdfSha512)
        } else {
            Err(AgileHpkeError::UnknownAlgIdent("KdfAlg", id))
        }
    }

    pub fn from_wire_id(id: u16) -> (r: Result<KdfAlg, AgileHpkeError>)
        ensures
            r == KdfAlg::spec_from_wire_id(id),
    {
        if id == 0x01 {
            Ok(KdfAlg::HkdfSha256)
        } else if id == 0x02 {
            Ok(KdfAlg::HkdfSha384)
        } else if id == 0x03 {
            Ok(KdfAlg::HkdfSha512)
        } else {
            Err(AgileHpkeError::UnknownAlgIdent("KdfAlg", id))
        }
    }

    /// The output size in bytes of the underlying digest.
    pub open spec fn spec_digest_len(self) -> nat {
        match self {
            KdfAlg::HkdfSha256 => 32,
            KdfAlg::HkdfSha384 => 48,
            KdfAlg::HkdfSha512 => 64,
        }
    }

    pub fn get_digest_len(&self) -> (r: usize)
        ensures
            r == self.spec_digest_len(),
    {
        match self {
            KdfAlg::HkdfSha256 => 32,
            KdfAlg::HkdfSha384 => 48,
            KdfAlg::HkdfSha512 => 64,
        }
    }
}

/// The closed set of key-exchange families the registry knows.
#[derive(Clone, Copy, Debug, PartialEq, Eq, Structural)]
pub enum KexAlg {
    X25519,
    X448,
    DhP256,
    DhP384,
    DhP521,
}

impl KexAlg {
    /// The canonical name of the family.
    pub open spec fn spec_name(self) -> &'static str {
        match self {
            KexAlg::X25519 => "X25519",
            KexAlg::X448 => "X448",
            KexAlg::DhP256 => "P256",
            KexAlg::DhP384 => "P384",
            KexAlg::DhP521 => "P521",
        }
    }

    pub fn name(&self) -> (r: &'static str)
        ensures
            r == self.spec_name(),
    {
        match self {
            KexAlg::X25519 => "X25519",
            KexAlg::X448 => "X448",
            KexAlg::DhP256 => "P256",
            KexAlg::DhP384 => "P384",
            KexAlg::DhP521 => "P521",
        }
    }

    /// The fixed marshalled length of a public key of the family; part of
    /// the wire contract.
    pub open spec fn spec_pubkey_len(self) -> nat {
        match self {
            KexAlg::X25519 => 32,
            KexAlg::X448 => 56,
            KexAlg::DhP256 => 65,
            KexAlg::DhP384 => 97,
            KexAlg::DhP521 => 133,
        }
    }

    pub fn get_pubkey_len(&self) -> (r: usize)
        ensures
            r == self.spec_pubkey_len(),
    {
        match self {
            KexAlg::X25519 => 32,
            KexAlg::X448 => 56,
            KexAlg::DhP256 => 65,
            KexAlg::DhP384 => 97,
            KexAlg::DhP521 => 133,
        }
    }

    /// The fixed marshalled length of a private key of the family.
    pub open spec fn spec_privkey_len(self) -> nat {
        match self {
            KexAlg::X25519 => 32,
            KexAlg::X448 => 56,
            KexAlg::DhP256 => 32,
            KexAlg::DhP384 => 48,
            KexAlg::DhP521 => 66,
        }
    }

    pub fn get_privkey_len(&self) -> (r: usize)
        ensures
            r == self.spec_privkey_len(),
    {
        match self {
            KexAlg::X25519 => 32,
            KexAlg::X448 => 56,
            KexAlg::DhP256 => 32,
            KexAlg::DhP384 => 48,
            KexAlg::DhP521 => 66,
        }
    }
}

/// The closed set of key-encapsulation mechanisms the registry knows.
#[derive(Clone, Copy, Debug, PartialEq, Eq, Structural)]
pub enum KemAlg {
    X25519HkdfSha256,
    X448HkdfSha512,
    DhP256HkdfSha256,
    DhP384HkdfSha384,
    DhP521HkdfSha512,
}

impl KemAlg {
    /// The canonical name of the mechanism.
    pub open spec fn spec_name(self) -> &'static str {
        match self {
            KemAlg::DhP256HkdfSha256 => "DhP256HkdfSha256",
            KemAlg::DhP384HkdfSha384 => "DhP384HkdfSha384",
            KemAlg::DhP521HkdfSha512 => "DhP521HkdfSha512",
            KemAlg::X25519HkdfSha256 => "X25519HkdfSha256",
            KemAlg::X448HkdfSha512 => "X448HkdfSha512",
        }
    }

    pub fn name(&self) -> (r: &'static str)
        ensures
            r == self.spec_name(),
    {
        match self {
            KemAlg::DhP256HkdfSha256 => "DhP256HkdfSha256",
            KemAlg::DhP384HkdfSha384 => "DhP384HkdfSha384",
            KemAlg::DhP521HkdfSha512 => "DhP521HkdfSha512",
            KemAlg::X25519HkdfSha256 => "X25519HkdfSha256",
            KemAlg::X448HkdfSha512 => "X448HkdfSha512",
        }
    }

    /// The stable 16-bit wire identifier of the mechanism.
    pub open spec fn spec_to_wire_id(self) -> u16 {
        match self {
            KemAlg::DhP256HkdfSha256 => 0x10,
            KemAlg::DhP384HkdfSha384 => 0x11,
            KemAlg::DhP521HkdfSha512 => 0x12,
            KemAlg::X25519HkdfSha256 => 0x20,
            KemAlg::X448HkdfSha512 => 0x21,
        }
    }

    pub fn to_wire_id(&self) -> (r: u16)
        ensures
            r == self.spec_to_wire_id(),
    {
        match self {
            KemAlg::DhP256HkdfSha256 => 0x10,
            KemAlg::DhP384HkdfSha384 => 0x11,
            KemAlg::DhP521HkdfSha512 => 0x12,
            KemAlg::X25519HkdfSha256 => 0x20,
            KemAlg::X448HkdfSha512 => 0x21,
        }
    }

    /// Which mechanism a wire identifier denotes; an id outside the closed
    /// set is rejected with `UnknownAlgIdent`.
    pub open spec fn spec_from_wire_id(id: u16) -> Result<KemAlg, AgileHpkeError> {
        if id == 0x10 {
            Ok(KemAlg::DhP256HkdfSha256)
        } else if id == 0x11 {
            Ok(KemAlg::DhP384HkdfSha384)
        } else if id == 0x12 {
            Ok(KemAlg::DhP521HkdfSha512)
        } else if id == 0x20 {
            Ok(KemAlg::X25519HkdfSha256)
        } else if id == 0x21 {
            Ok(KemAlg::X448HkdfSha512)
        } else {
            Err(AgileHpkeError::UnknownAlgIdent("KemAlg", id))
        }
    }

    pub fn from_wire_id(id: u16) -> (r: Result<KemAlg, AgileHpkeError>)
        ensures
            r == KemAlg::spec_from_wire_id(id),
    {
        if id == 0x10 {
            Ok(KemAlg::DhP256HkdfSha256)
        } else if id == 0x11 {
            Ok(KemAlg::DhP384HkdfSha384)
        } else if id == 0x12 {
            Ok(KemAlg::DhP521HkdfSha512)
        } else if id == 0x20 {
            Ok(KemAlg::X25519HkdfSha256)
        } else if id == 0x21 {
            Ok(KemAlg::X448HkdfSha512)
        } else {
            Err(AgileHpkeError::UnknownAlgIdent("KemAlg", id))
        }
    }

    /// The key-exchange family the mechanism is built on; a fixed table.
    pub open spec fn spec_kex_alg(self) -> KexAlg {
        match self {
            KemAlg::X25519HkdfSha256 => KexAlg::X25519,
            KemAlg::X448HkdfSha512 => KexAlg::X448,
            KemAlg::DhP256HkdfSha256 => KexAlg::DhP256,
            KemAlg::DhP384HkdfSha384 => KexAlg::DhP384,
            KemAlg::DhP521HkdfSha512 => KexAlg::DhP521,
        }
    }

    pub fn kex_alg(&self) -> (r: KexAlg)
        ensures
            r == self.spec_kex_alg(),
    {
        match self {
            KemAlg::X25519HkdfSha256 => KexAlg::X25519,
            KemAlg::X448HkdfSha512 => KexAlg::X448,
            KemAlg::DhP256HkdfSha256 => KexAlg::DhP256,
            KemAlg::DhP384HkdfSha384 => KexAlg::DhP384,
            KemAlg::DhP521HkdfSha512 => KexAlg::DhP521,
        }
    }

    /// The key-derivation algorithm the mechanism's shared-secret
    /// derivation uses; a fixed table.
    pub open spec fn spec_kdf_alg(self) -> KdfAlg {
        match self {
            KemAlg::X25519HkdfSha256 => KdfAlg::HkdfSha256,
            KemAlg::X448HkdfSha512 => KdfAlg::HkdfSha512,
            KemAlg::DhP256HkdfSha256 => KdfAlg::HkdfSha256,
            KemAlg::DhP384HkdfSha384 => KdfAlg::HkdfSha384,
            KemAlg::DhP521HkdfSha512 => KdfAlg::HkdfSha512,
        }
    }

    pub fn kdf_alg(&self) -> (r: KdfAlg)
        ensures
            r == self.spec_kdf_alg(),
    {
        match self {
            KemAlg::X25519HkdfSha256 => KdfAlg::HkdfSha256,
            KemAlg::X448HkdfSha512 => KdfAlg::HkdfSha512,
            KemAlg::DhP256HkdfSha256 => KdfAlg::HkdfSha256,
            KemAlg::DhP384HkdfSha384 => KdfAlg::HkdfSha384,
            KemAlg::DhP521HkdfSha512 => KdfAlg::HkdfSha512,
        }
    }
}

/// Every algorithm's wire identifier survives a round trip through the
/// registry: decoding the encoded id yields the algorithm back.
pub proof fn lemma_aead_wire_id_round_trip(a: AeadAlg)
    ensures
        AeadAlg::spec_from_wire_id(a.spec_to_wire_id()) == Ok::<AeadAlg, AgileHpkeError>(a),
{
}

/// Every identifier the registry accepts round-trips back to itself:
/// encoding the decoded algorithm yields the identifier again.
pub proof fn lemma_aead_wire_id_complete(id: u16)
    ensures
        AeadAlg::spec_from_wire_id(id) matches Ok(a) ==> a.spec_to_wire_id() == id,
        AeadAlg::spec_from_wire_id(id) is Err <==> !(0x01 <= id <= 0x03),
{
}

/// The KDF registry round-trips its wire identifiers the same way.
pub proof fn lemma_kdf_wire_id_round_trip(a: KdfAlg)
    ensures
        KdfAlg::spec_from_wire_id(a.spec_to_wire_id()) == Ok::<KdfAlg, AgileHpkeError>(a),
{
}

/// The KEM registry round-trips its wire identifiers the same way.
pub proof fn lemma_kem_wire_id_round_trip(a: KemAlg)
    ensures
        KemAlg::spec_from_wire_id(a.spec_to_wire_id()) == Ok::<KemAlg, AgileHpkeError>(a),
{
}

} // verus!
