use hpke_agility::algs::{AeadAlg, KdfAlg, KemAlg, KexAlg};
use hpke_agility::err::AgileHpkeError;
use hpke_agility::kdf::{HkdfSha256, HkdfSha384, HkdfSha512, Kdf};

#[test]
fn aead_unknown_id_rejected() {
    assert_eq!(
        AeadAlg::from_wire_id(0xFF),
        Err(AgileHpkeError::UnknownAlgIdent("AeadAlg", 0xFF))
    );
    assert_eq!(
        AeadAlg::from_wire_id(0x00),
        Err(AgileHpkeError::UnknownAlgIdent("AeadAlg", 0x00))
    );
    assert_eq!(
        AeadAlg::from_wire_id(0x04),
        Err(AgileHpkeError::UnknownAlgIdent("AeadAlg", 0x04))
    );
}

#[test]
fn aead_valid_ids_round_trip() {
    for id in 0x01u16..=0x03u16 {
        let alg = AeadAlg::from_wire_id(id).unwrap();
        assert_eq!(alg.to_wire_id(), id);
    }
    assert_eq!(AeadAlg::from_wire_id(0x01), Ok(AeadAlg::AesGcm128));
    assert_eq!(AeadAlg::from_wire_id(0x02), Ok(AeadAlg::AesGcm256));
    assert_eq!(AeadAlg::from_wire_id(0x03), Ok(AeadAlg::ChaCha20Poly1305));
}

#[test]
fn kdf_ids_round_trip() {
    for id in 0x01u16..=0x03u16 {
        let alg = KdfAlg::from_wire_id(id).unwrap();
        assert_eq!(alg.to_wire_id(), id);
    }
    assert_eq!(
        KdfAlg::from_wire_id(0x09),
        Err(AgileHpkeError::UnknownAlgIdent("KdfAlg", 0x09))
    );
}

#[test]
fn kem_ids_round_trip() {
    for id in [0x10u16, 0x11, 0x12, 0x20, 0x21] {
        let alg = KemAlg::from_wire_id(id).unwrap();
        assert_eq!(alg.to_wire_id(), id);
    }
    assert_eq!(
        KemAlg::from_wire_id(0x13),
        Err(AgileHpkeError::UnknownAlgIdent("KemAlg", 0x13))
    );
}

#[test]
fn kem_family_tables() {
    assert_eq!(KemAlg::X25519HkdfSha256.kex_alg(), KexAlg::X25519);
    assert_eq!(KemAlg::X25519HkdfSha256.kdf_alg(), KdfAlg::HkdfSha256);
    assert_eq!(KemAlg::X448HkdfSha512.kex_alg(), KexAlg::X448);
    assert_eq!(KemAlg::X448HkdfSha512.kdf_alg(), KdfAlg::HkdfSha512);
    assert_eq!(KemAlg::DhP256HkdfSha256.kex_alg(), KexAlg::DhP256);
    assert_eq!(KemAlg::DhP256HkdfSha256.kdf_alg(), KdfAlg::HkdfSha256);
    assert_eq!(KemAlg::DhP384HkdfSha384.kex_alg(), KexAlg::DhP384);
    assert_eq!(KemAlg::DhP384HkdfSha384.kdf_alg(), KdfAlg::HkdfSha384);
    assert_eq!(KemAlg::DhP521HkdfSha512.kex_alg(), KexAlg::DhP521);
    assert_eq!(KemAlg::DhP521HkdfSha512.kdf_alg(), KdfAlg::HkdfSha512);
}

#[test]
fn registry_names() {
    assert_eq!(AeadAlg::AesGcm128.name(), "AesGcm128");
    assert_eq!(KdfAlg::HkdfSha512.name(), "HkdfSha512");
    assert_eq!(KexAlg::DhP256.name(), "P256");
    assert_eq!(KemAlg::X25519HkdfSha256.name(), "X25519HkdfSha256");
}

#[test]
fn registry_lengths() {
    assert_eq!(KdfAlg::HkdfSha256.get_digest_len(), 32);
    assert_eq!(KdfAlg::HkdfSha384.get_digest_len(), 48);
    assert_eq!(KdfAlg::HkdfSha512.get_digest_len(), 64);
    assert_eq!(KexAlg::X25519.get_pubkey_len(), 32);
    assert_eq!(KexAlg::X448.get_pubkey_len(), 56);
    assert_eq!(KexAlg::DhP256.get_pubkey_len(), 65);
    assert_eq!(KexAlg::DhP384.get_pubkey_len(), 97);
    assert_eq!(KexAlg::DhP521.get_pubkey_len(), 133);
    assert_eq!(AeadAlg::AesGcm128.key_len(), 16);
    assert_eq!(AeadAlg::AesGcm256.key_len(), 32);
    assert_eq!(AeadAlg::ChaCha20Poly1305.key_len(), 32);
    assert_eq!(AeadAlg::AesGcm128.nonce_len(), 12);
    assert_eq!(AeadAlg::AesGcm128.tag_len(), 16);
}

#[test]
fn kdf_trait_ids() {
    assert_eq!(HkdfSha256::kdf_id(), 0x0001);
    assert_eq!(HkdfSha384::kdf_id(), 0x0002);
    assert_eq!(HkdfSha512::kdf_id(), 0x0003);
    assert_eq!(HkdfSha256::alg(), KdfAlg::HkdfSha256);
    assert_eq!(HkdfSha384::alg(), KdfAlg::HkdfSha384);
    assert_eq!(HkdfSha512::alg(), KdfAlg::HkdfSha512);
}
