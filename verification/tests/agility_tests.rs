use hpke_agility::agile::{
    agile_gen_keypair, AgileKeypair, AgileOpModeR, AgileOpModeRTy, AgileOpModeS, AgileOpModeSTy,
    AgilePrivateKey, AgilePskBundle, AgilePublicKey,
};
use hpke_agility::algs::{KdfAlg, KexAlg};
use hpke_agility::err::{AgileHpkeError, HpkeError};
use hpke_agility::kex::{KeyExchange, Marshallable, Unmarshallable, X25519};
use hpke_agility::kex::{DhP256, P256PrivateKey, P256PublicKey};
use hpke_agility::kex::{X25519PrivateKey, X25519PublicKey};

fn hex(s: &str) -> Vec<u8> {
    let mut out = Vec::new();
    let mut i = 0;
    while i + 2 <= s.len() {
        out.push(u8::from_str_radix(&s[i..i + 2], 16).unwrap());
        i += 2;
    }
    out
}

#[test]
fn x25519_known_vectors() {
    // The X25519 function on the test vectors of the curve's specification:
    // Alice's and Bob's keypairs and their shared secret.
    let a_sk = hex("77076d0a7318a57d3c16c17251b26645df4c2f87ebc0992ab177fba51db92c2a");
    let a_pk = hex("8520f0098930a754748b7ddcb43ef75a0dbf3a0d26381af4eba4a98eaa9b4e6a");
    let b_sk = hex("5dab087e624a8a4b79e17f8b83800ee66f3bb1292618b6fd1c2f8b27ff88e0eb");
    let b_pk = hex("de9edb7d7b7dc1b4d35b61c2ece435373f8343c85b78674dadfc7e146f882b4f");
    let shared = hex("4a5d9d5ba4ce2de1728e3bf480350f25e07e21c947d19e3376f09b3c1e161742");

    let sk = X25519PrivateKey { bytes: a_sk.clone() };
    let pk = X25519::sk_to_pk(&sk);
    assert_eq!(pk.marshal(), a_pk);

    let sk_b = X25519PrivateKey { bytes: b_sk.clone() };
    let pk_b = X25519::sk_to_pk(&sk_b);
    assert_eq!(pk_b.marshal(), b_pk);

    let z1 = X25519::kex(&sk, &pk_b).unwrap();
    let z2 = X25519::kex(&sk_b, &pk).unwrap();
    assert_eq!(z1.marshal(), shared);
    assert_eq!(z2.marshal(), shared);
}

#[test]
fn x25519_marshal_round_trip() {
    assert_eq!(X25519PublicKey::size(), 32);
    assert_eq!(X25519PrivateKey::size(), 32);
    let bytes = vec![42u8; 32];
    let pk = X25519PublicKey::unmarshal(&bytes).unwrap();
    assert_eq!(pk.marshal(), bytes);
    assert_eq!(X25519PublicKey::unmarshal(&vec![1u8; 31]).err(), Some(HpkeError::Decode));
    assert_eq!(X25519PrivateKey::unmarshal(&vec![1u8; 33]).err(), Some(HpkeError::Decode));
}

#[test]
fn gen_keypair_tags_and_consistency() {
    let kp = agile_gen_keypair(KexAlg::X25519).unwrap();
    assert_eq!(kp.0.kex_alg, KexAlg::X25519);
    assert_eq!(kp.1.kex_alg, KexAlg::X25519);
    assert_eq!(kp.0.privkey_bytes.len(), 32);
    assert_eq!(kp.1.pubkey_bytes.len(), 32);
    assert!(kp.validate().is_ok());
    // The stored public half is the private half's public key.
    let sk = X25519PrivateKey { bytes: kp.0.privkey_bytes.clone() };
    assert_eq!(X25519::sk_to_pk(&sk).marshal(), kp.1.pubkey_bytes);
    // Two generated keypairs differ.
    let kp2 = agile_gen_keypair(KexAlg::X25519).unwrap();
    assert_ne!(kp.0.privkey_bytes, kp2.0.privkey_bytes);
}

#[test]
fn p256_gen_keypair_and_agreement() {
    let kp = agile_gen_keypair(KexAlg::DhP256).unwrap();
    assert_eq!(kp.0.kex_alg, KexAlg::DhP256);
    assert_eq!(kp.1.kex_alg, KexAlg::DhP256);
    assert_eq!(kp.0.privkey_bytes.len(), 32);
    assert_eq!(kp.1.pubkey_bytes.len(), 65);
    // The stored public half is the private half's public key.
    let sk = P256PrivateKey { bytes: kp.0.privkey_bytes.clone() };
    assert_eq!(DhP256::sk_to_pk(&sk).marshal(), kp.1.pubkey_bytes);
    // Agreement is the same from either side.
    let kp2 = agile_gen_keypair(KexAlg::DhP256).unwrap();
    let sk2 = P256PrivateKey { bytes: kp2.0.privkey_bytes.clone() };
    let pk1 = P256PublicKey::unmarshal(&kp.1.pubkey_bytes).unwrap();
    let pk2 = P256PublicKey::unmarshal(&kp2.1.pubkey_bytes).unwrap();
    let z1 = DhP256::kex(&sk, &pk2).unwrap();
    let z2 = DhP256::kex(&sk2, &pk1).unwrap();
    assert_eq!(z1.marshal(), z2.marshal());
    assert_eq!(z1.marshal().len(), 32);
}

#[test]
fn p256_unmarshal_rejects_invalid_points() {
    // Right length, but not a curve point.
    assert_eq!(P256PublicKey::unmarshal(&vec![0u8; 65]).err(), Some(HpkeError::Decode));
    // Wrong length.
    assert_eq!(P256PublicKey::unmarshal(&vec![4u8; 33]).err(), Some(HpkeError::Decode));
}

#[test]
fn gen_keypair_unsupported_family() {
    assert_eq!(
        agile_gen_keypair(KexAlg::X448).err(),
        Some(AgileHpkeError::UnsupportedCombination)
    );
    assert_eq!(
        agile_gen_keypair(KexAlg::DhP521).err(),
        Some(AgileHpkeError::UnsupportedCombination)
    );
}

#[test]
fn keypair_validate_mismatch() {
    let kp = agile_gen_keypair(KexAlg::X25519).unwrap();
    let bad = AgileKeypair(
        AgilePrivateKey { kex_alg: KexAlg::DhP256, privkey_bytes: kp.0.privkey_bytes.clone() },
        kp.1,
    );
    assert_eq!(
        bad.validate(),
        Err(AgileHpkeError::AlgMismatch(
            ("P256", "AgileKeypair::privkey"),
            ("X25519", "AgileKeypair::pubkey"),
        ))
    );
}

#[test]
fn mode_validate_detects_psk_bundle_mismatch() {
    // A declared KexAlg that differs from the nested bundle's fails with
    // AlgMismatch before any lift occurs.
    let bundle = AgilePskBundle {
        kex_alg: KexAlg::DhP256,
        kdf_alg: KdfAlg::HkdfSha256,
        psk_bytes: vec![1u8; 32],
        psk_id: b"id".to_vec(),
    };
    let mode = AgileOpModeR {
        kex_alg: KexAlg::X25519,
        kdf_alg: KdfAlg::HkdfSha256,
        op_mode_ty: AgileOpModeRTy::Psk(bundle),
    };
    assert_eq!(
        mode.validate(),
        Err(AgileHpkeError::AlgMismatch(
            ("X25519", "AgileOpModeR::kex_alg"),
            ("P256", "AgileOpModeR::op_mode_ty::AgilePskBundle::kex_alg"),
        ))
    );
}

#[test]
fn mode_validate_detects_kdf_mismatch() {
    let bundle = AgilePskBundle {
        kex_alg: KexAlg::X25519,
        kdf_alg: KdfAlg::HkdfSha384,
        psk_bytes: vec![1u8; 32],
        psk_id: b"id".to_vec(),
    };
    let mode = AgileOpModeS {
        kex_alg: KexAlg::X25519,
        kdf_alg: KdfAlg::HkdfSha256,
        op_mode_ty: AgileOpModeSTy::Psk(bundle),
    };
    assert_eq!(
        mode.validate(),
        Err(AgileHpkeError::AlgMismatch(
            ("HkdfSha256", "AgileOpModeS::kdf_alg"),
            ("HkdfSha384", "AgileOpModeS::op_mode_ty::AgilePskBundle::kdf_alg"),
        ))
    );
}

#[test]
fn mode_validate_checks_nested_keypair_first() {
    let kp = agile_gen_keypair(KexAlg::X25519).unwrap();
    let bad_kp = AgileKeypair(
        AgilePrivateKey { kex_alg: KexAlg::X448, privkey_bytes: kp.0.privkey_bytes.clone() },
        kp.1,
    );
    let mode = AgileOpModeS {
        kex_alg: KexAlg::X25519,
        kdf_alg: KdfAlg::HkdfSha256,
        op_mode_ty: AgileOpModeSTy::Auth(bad_kp),
    };
    assert_eq!(
        mode.validate(),
        Err(AgileHpkeError::AlgMismatch(
            ("X448", "AgileKeypair::privkey"),
            ("X25519", "AgileKeypair::pubkey"),
        ))
    );
}

#[test]
fn mode_validate_auth_tag_against_declared() {
    let kp = agile_gen_keypair(KexAlg::X25519).unwrap();
    let mode = AgileOpModeS {
        kex_alg: KexAlg::DhP256,
        kdf_alg: KdfAlg::HkdfSha256,
        op_mode_ty: AgileOpModeSTy::Auth(kp),
    };
    assert_eq!(
        mode.validate(),
        Err(AgileHpkeError::AlgMismatch(
            ("P256", "AgileOpModeS::kex_alg"),
            ("X25519", "AgileOpModeS::op_mode_ty::AgilePrivateKey::kex_alg"),
        ))
    );
}

#[test]
fn mode_validate_accepts_consistent_tags() {
    let kp = agile_gen_keypair(KexAlg::X25519).unwrap();
    let bundle = AgilePskBundle {
        kex_alg: KexAlg::X25519,
        kdf_alg: KdfAlg::HkdfSha512,
        psk_bytes: vec![1u8; 64],
        psk_id: b"id".to_vec(),
    };
    let mode = AgileOpModeS {
        kex_alg: KexAlg::X25519,
        kdf_alg: KdfAlg::HkdfSha512,
        op_mode_ty: AgileOpModeSTy::AuthPsk(kp, bundle),
    };
    assert!(mode.validate().is_ok());
}

#[test]
fn tagged_value_lift_rejects_bad_length() {
    let pk = AgilePublicKey { kex_alg: KexAlg::X25519, pubkey_bytes: vec![1u8; 31] };
    assert_eq!(
        pk.try_lift::<X25519>().err(),
        Some(AgileHpkeError::HpkeError(HpkeError::Decode))
    );
    let pk_ok = AgilePublicKey { kex_alg: KexAlg::X25519, pubkey_bytes: vec![1u8; 32] };
    // Lifting is idempotent: it can be called repeatedly with equal results.
    let a = pk_ok.try_lift::<X25519>().unwrap();
    let b = pk_ok.try_lift::<X25519>().unwrap();
    assert_eq!(a.marshal(), b.marshal());
    assert_eq!(a.marshal(), pk_ok.pubkey_bytes);
}
