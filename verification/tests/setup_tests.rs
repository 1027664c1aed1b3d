use hpke_agility::aead::AgileAeadCtx;
use hpke_agility::agile::{
    agile_gen_keypair, AgileEncappedKey, AgileKeypair, AgileOpModeR, AgileOpModeRTy, AgileOpModeS,
    AgileOpModeSTy, AgilePskBundle, AgilePublicKey,
};
use hpke_agility::algs::{AeadAlg, KdfAlg, KemAlg, KexAlg};
use hpke_agility::err::{AgileHpkeError, HpkeError};
use hpke_agility::roundtrip::{auth_psk_round_trip, base_round_trip};
use hpke_agility::setup::{agile_setup_receiver, agile_setup_sender};

fn auth_psk_modes(
    kex_alg: KexAlg,
    kdf_alg: KdfAlg,
    sender_keypair: &AgileKeypair,
    psk_bytes: &[u8],
    psk_id: &[u8],
) -> (AgileOpModeS, AgileOpModeR) {
    let bundle = AgilePskBundle {
        kex_alg,
        kdf_alg,
        psk_bytes: psk_bytes.to_vec(),
        psk_id: psk_id.to_vec(),
    };
    let sender_kp = AgileKeypair(
        hpke_agility::agile::AgilePrivateKey {
            kex_alg,
            privkey_bytes: sender_keypair.0.privkey_bytes.clone(),
        },
        AgilePublicKey { kex_alg, pubkey_bytes: sender_keypair.1.pubkey_bytes.clone() },
    );
    let sender_pk = AgilePublicKey {
        kex_alg,
        pubkey_bytes: sender_keypair.1.pubkey_bytes.clone(),
    };
    let bundle_r = AgilePskBundle {
        kex_alg,
        kdf_alg,
        psk_bytes: psk_bytes.to_vec(),
        psk_id: psk_id.to_vec(),
    };
    let op_mode_s = AgileOpModeS {
        kex_alg,
        kdf_alg,
        op_mode_ty: AgileOpModeSTy::AuthPsk(sender_kp, bundle),
    };
    let op_mode_r = AgileOpModeR {
        kex_alg,
        kdf_alg,
        op_mode_ty: AgileOpModeRTy::AuthPsk(sender_pk, bundle_r),
    };
    (op_mode_s, op_mode_r)
}

#[test]
fn round_trip_every_table_combination() {
    // For every (aead, kem, kdf) triple in the dispatch table, an
    // encryption-decryption round trip in AuthPsk mode through the public
    // dispatch API recovers the original plaintext.
    let aeads = [AeadAlg::AesGcm128, AeadAlg::AesGcm256, AeadAlg::ChaCha20Poly1305];
    let kdfs = [KdfAlg::HkdfSha256, KdfAlg::HkdfSha384, KdfAlg::HkdfSha512];
    let kems = [KemAlg::X25519HkdfSha256, KemAlg::DhP256HkdfSha256];
    let info = b"we're gonna agile him in his clavicle".to_vec();
    for aead_alg in aeads {
        for kem_alg in kems {
            for kdf_alg in kdfs {
                let kex_alg = kem_alg.kex_alg();
                let sender_keypair = agile_gen_keypair(kex_alg).unwrap();
                let recip_keypair = agile_gen_keypair(kex_alg).unwrap();
                let psk = vec![7u8; kdf_alg.get_digest_len()];
                let (op_mode_s, op_mode_r) =
                    auth_psk_modes(kex_alg, kdf_alg, &sender_keypair, &psk, b"a psk id");

                let (encapped_key, mut ctx1) =
                    agile_setup_sender(aead_alg, kem_alg, &op_mode_s, &recip_keypair.1, &info)
                        .unwrap();
                let mut ctx2 = agile_setup_receiver(
                    aead_alg,
                    kem_alg,
                    &op_mode_r,
                    &recip_keypair,
                    &encapped_key,
                    &info,
                )
                .unwrap();

                let msg = b"paper boy paper boy".to_vec();
                let aad = b"all about that paper, boy".to_vec();
                let (ciphertext, tag) = ctx1.seal(&msg, &aad).unwrap();
                assert_ne!(ciphertext, msg);
                assert_eq!(tag.len(), 16);
                assert_eq!(encapped_key.encapped_key_bytes.len(), kex_alg.get_pubkey_len());
                let roundtrip = ctx2.open(&ciphertext, &aad, &tag).unwrap();
                assert_eq!(roundtrip, msg);
            }
        }
    }
}

#[test]
fn scenario_auth_psk_aes128_x25519() {
    // Sender and receiver independently build AuthPsk-mode contexts from a
    // shared keypair and PSK under AES-GCM-128 / HKDF-SHA256 / X25519.
    let kdf_alg = KdfAlg::HkdfSha256;
    let sender_keypair = agile_gen_keypair(KexAlg::X25519).unwrap();
    let recip_keypair = agile_gen_keypair(KexAlg::X25519).unwrap();
    let psk = vec![9u8; 32];
    let (op_mode_s, op_mode_r) = auth_psk_modes(
        KexAlg::X25519,
        kdf_alg,
        &sender_keypair,
        &psk,
        b"preshared key attempt #5, take 2. action",
    );
    let info = b"we're gonna agile him in his clavicle".to_vec();

    let (encapped_key, mut ctx1) = agile_setup_sender(
        AeadAlg::AesGcm128,
        KemAlg::X25519HkdfSha256,
        &op_mode_s,
        &recip_keypair.1,
        &info,
    )
    .unwrap();
    let mut ctx2 = agile_setup_receiver(
        AeadAlg::AesGcm128,
        KemAlg::X25519HkdfSha256,
        &op_mode_r,
        &recip_keypair,
        &encapped_key,
        &info,
    )
    .unwrap();

    let msg = b"paper boy paper boy".to_vec();
    let aad = b"all about that paper, boy".to_vec();
    let (ciphertext, tag) = ctx1.seal(&msg, &aad).unwrap();
    let roundtrip = ctx2.open(&ciphertext, &aad, &tag).unwrap();
    assert_eq!(roundtrip, b"paper boy paper boy".to_vec());
}

#[test]
fn tamper_detection_every_bit() {
    // Flipping any bit of the ciphertext, the tag or the aad before open
    // fails with an authentication error, never returns altered plaintext.
    let kdf_alg = KdfAlg::HkdfSha256;
    let sender_keypair = agile_gen_keypair(KexAlg::X25519).unwrap();
    let recip_keypair = agile_gen_keypair(KexAlg::X25519).unwrap();
    let psk = vec![1u8; 32];
    let (op_mode_s, op_mode_r) =
        auth_psk_modes(KexAlg::X25519, kdf_alg, &sender_keypair, &psk, b"id");
    let info = b"tamper info".to_vec();

    let (encapped_key, mut ctx1) = agile_setup_sender(
        AeadAlg::AesGcm128,
        KemAlg::X25519HkdfSha256,
        &op_mode_s,
        &recip_keypair.1,
        &info,
    )
    .unwrap();
    let msg = b"attack at dawn".to_vec();
    let aad = b"header".to_vec();
    let (ciphertext, tag) = ctx1.seal(&msg, &aad).unwrap();

    for byte in 0..ciphertext.len() {
        for bit in 0..8 {
            let mut bad = ciphertext.clone();
            bad[byte] ^= 1 << bit;
            let mut ctx2 = agile_setup_receiver(
                AeadAlg::AesGcm128,
                KemAlg::X25519HkdfSha256,
                &op_mode_r,
                &recip_keypair,
                &encapped_key,
                &info,
            )
            .unwrap();
            assert_eq!(ctx2.open(&bad, &aad, &tag), Err(HpkeError::Open));
        }
    }
    for byte in 0..tag.len() {
        for bit in 0..8 {
            let mut bad = tag.clone();
            bad[byte] ^= 1 << bit;
            let mut ctx2 = agile_setup_receiver(
                AeadAlg::AesGcm128,
                KemAlg::X25519HkdfSha256,
                &op_mode_r,
                &recip_keypair,
                &encapped_key,
                &info,
            )
            .unwrap();
            assert_eq!(ctx2.open(&ciphertext, &aad, &bad), Err(HpkeError::Open));
        }
    }
    for byte in 0..aad.len() {
        for bit in 0..8 {
            let mut bad = aad.clone();
            bad[byte] ^= 1 << bit;
            let mut ctx2 = agile_setup_receiver(
                AeadAlg::AesGcm128,
                KemAlg::X25519HkdfSha256,
                &op_mode_r,
                &recip_keypair,
                &encapped_key,
                &info,
            )
            .unwrap();
            assert_eq!(ctx2.open(&ciphertext, &bad, &tag), Err(HpkeError::Open));
        }
    }
}

#[test]
fn setup_rejects_mismatched_mode_before_crypto() {
    // A mode whose declared family differs from a nested bundle's must fail
    // with AlgMismatch before any lift or cryptographic operation.
    let recip_keypair = agile_gen_keypair(KexAlg::X25519).unwrap();
    let bundle = AgilePskBundle {
        kex_alg: KexAlg::DhP256,
        kdf_alg: KdfAlg::HkdfSha256,
        psk_bytes: vec![1u8; 32],
        psk_id: b"id".to_vec(),
    };
    let op_mode_s = AgileOpModeS {
        kex_alg: KexAlg::X25519,
        kdf_alg: KdfAlg::HkdfSha256,
        op_mode_ty: AgileOpModeSTy::Psk(bundle),
    };
    let r = agile_setup_sender(
        AeadAlg::AesGcm128,
        KemAlg::X25519HkdfSha256,
        &op_mode_s,
        &recip_keypair.1,
        &b"info".to_vec(),
    );
    assert_eq!(
        r.err(),
        Some(AgileHpkeError::AlgMismatch(
            ("X25519", "AgileOpModeS::kex_alg"),
            ("P256", "AgileOpModeS::op_mode_ty::AgilePskBundle::kex_alg"),
        ))
    );
}

#[test]
fn setup_rejects_recipient_key_family_mismatch() {
    let recip_keypair = agile_gen_keypair(KexAlg::X25519).unwrap();
    let mistagged = AgilePublicKey {
        kex_alg: KexAlg::DhP256,
        pubkey_bytes: recip_keypair.1.pubkey_bytes.clone(),
    };
    let op_mode_s = AgileOpModeS {
        kex_alg: KexAlg::X25519,
        kdf_alg: KdfAlg::HkdfSha256,
        op_mode_ty: AgileOpModeSTy::Base,
    };
    let r = agile_setup_sender(
        AeadAlg::AesGcm128,
        KemAlg::X25519HkdfSha256,
        &op_mode_s,
        &mistagged,
        &b"info".to_vec(),
    );
    assert_eq!(
        r.err(),
        Some(AgileHpkeError::AlgMismatch(
            ("X25519", "mode::kex_alg"),
            ("P256", "pk_recip::kex_alg"),
        ))
    );
}

#[test]
fn setup_rejects_kem_family_mismatch() {
    let recip_keypair = agile_gen_keypair(KexAlg::X25519).unwrap();
    let op_mode_s = AgileOpModeS {
        kex_alg: KexAlg::X25519,
        kdf_alg: KdfAlg::HkdfSha256,
        op_mode_ty: AgileOpModeSTy::Base,
    };
    let r = agile_setup_sender(
        AeadAlg::AesGcm128,
        KemAlg::DhP256HkdfSha256,
        &op_mode_s,
        &recip_keypair.1,
        &b"info".to_vec(),
    );
    assert_eq!(
        r.err(),
        Some(AgileHpkeError::AlgMismatch(
            ("P256", "kem_alg::kex_alg"),
            ("X25519", "mode::kex_alg"),
        ))
    );
}

#[test]
fn setup_reports_unsupported_combination() {
    // A structurally consistent triple outside the dispatch table is a
    // distinct, typed condition, not a validation failure and not a crash.
    let op_mode_s = AgileOpModeS {
        kex_alg: KexAlg::X448,
        kdf_alg: KdfAlg::HkdfSha512,
        op_mode_ty: AgileOpModeSTy::Base,
    };
    let pk = AgilePublicKey { kex_alg: KexAlg::X448, pubkey_bytes: vec![4u8; 56] };
    let r = agile_setup_sender(
        AeadAlg::AesGcm128,
        KemAlg::X448HkdfSha512,
        &op_mode_s,
        &pk,
        &b"info".to_vec(),
    );
    assert_eq!(r.err(), Some(AgileHpkeError::UnsupportedCombination));
}

#[test]
fn setup_reports_decode_error() {
    let recip_keypair = agile_gen_keypair(KexAlg::X25519).unwrap();
    let op_mode_s = AgileOpModeS {
        kex_alg: KexAlg::X25519,
        kdf_alg: KdfAlg::HkdfSha256,
        op_mode_ty: AgileOpModeSTy::Base,
    };
    let truncated = AgilePublicKey {
        kex_alg: KexAlg::X25519,
        pubkey_bytes: recip_keypair.1.pubkey_bytes[..31].to_vec(),
    };
    let r = agile_setup_sender(
        AeadAlg::AesGcm128,
        KemAlg::X25519HkdfSha256,
        &op_mode_s,
        &truncated,
        &b"info".to_vec(),
    );
    assert_eq!(r.err(), Some(AgileHpkeError::HpkeError(HpkeError::Decode)));
}

#[test]
fn receiver_rejects_encapped_key_family_mismatch() {
    let recip_keypair = agile_gen_keypair(KexAlg::X25519).unwrap();
    let op_mode_r = AgileOpModeR {
        kex_alg: KexAlg::X25519,
        kdf_alg: KdfAlg::HkdfSha256,
        op_mode_ty: AgileOpModeRTy::Base,
    };
    let encapped = AgileEncappedKey {
        kex_alg: KexAlg::DhP256,
        encapped_key_bytes: vec![1u8; 32],
    };
    let r = agile_setup_receiver(
        AeadAlg::AesGcm128,
        KemAlg::X25519HkdfSha256,
        &op_mode_r,
        &recip_keypair,
        &encapped,
        &b"info".to_vec(),
    );
    assert_eq!(
        r.err(),
        Some(AgileHpkeError::AlgMismatch(
            ("X25519", "recip_keypair::kex_alg"),
            ("P256", "encapped_key::kex_alg"),
        ))
    );
}

#[test]
fn sequence_numbers_must_stay_aligned() {
    // Each successful seal advances the sender's sequence number; the
    // receiver must open in the same order, and a message opened at the
    // wrong sequence number fails authentication.
    let recip_keypair = agile_gen_keypair(KexAlg::X25519).unwrap();
    let op_mode_s = AgileOpModeS {
        kex_alg: KexAlg::X25519,
        kdf_alg: KdfAlg::HkdfSha256,
        op_mode_ty: AgileOpModeSTy::Base,
    };
    let op_mode_r = AgileOpModeR {
        kex_alg: KexAlg::X25519,
        kdf_alg: KdfAlg::HkdfSha256,
        op_mode_ty: AgileOpModeRTy::Base,
    };
    let info = b"ordered stream".to_vec();
    let (encapped_key, mut ctx1) = agile_setup_sender(
        AeadAlg::ChaCha20Poly1305,
        KemAlg::X25519HkdfSha256,
        &op_mode_s,
        &recip_keypair.1,
        &info,
    )
    .unwrap();
    let mut ctx2 = agile_setup_receiver(
        AeadAlg::ChaCha20Poly1305,
        KemAlg::X25519HkdfSha256,
        &op_mode_r,
        &recip_keypair,
        &encapped_key,
        &info,
    )
    .unwrap();

    let aad = b"aad".to_vec();
    let m1 = b"first".to_vec();
    let m2 = b"second".to_vec();
    let (c1, t1) = ctx1.seal(&m1, &aad).unwrap();
    let (c2, t2) = ctx1.seal(&m2, &aad).unwrap();
    // Opening the second message first fails: the nonce differs.
    let mut ctx2b = agile_setup_receiver(
        AeadAlg::ChaCha20Poly1305,
        KemAlg::X25519HkdfSha256,
        &op_mode_r,
        &recip_keypair,
        &encapped_key,
        &info,
    )
    .unwrap();
    assert_eq!(ctx2b.open(&c2, &aad, &t2), Err(HpkeError::Open));
    // In order, both open.
    assert_eq!(ctx2.open(&c1, &aad, &t1).unwrap(), m1);
    assert_eq!(ctx2.open(&c2, &aad, &t2).unwrap(), m2);
}

#[test]
fn sequence_exhaustion_is_reported() {
    let mut ctx = AgileAeadCtx {
        aead_alg: AeadAlg::AesGcm128,
        key: vec![0u8; 16],
        base_nonce: vec![0u8; 12],
        seq: u64::MAX,
    };
    let msg = b"late message".to_vec();
    let aad = b"aad".to_vec();
    assert_eq!(ctx.seal(&msg, &aad), Err(HpkeError::SequenceExhausted));
    assert_eq!(
        ctx.open(&msg, &aad, &vec![0u8; 16]),
        Err(HpkeError::SequenceExhausted)
    );
}

#[test]
fn verified_round_trip_entry_points() {
    let aeads = [AeadAlg::AesGcm128, AeadAlg::AesGcm256, AeadAlg::ChaCha20Poly1305];
    let kdfs = [KdfAlg::HkdfSha256, KdfAlg::HkdfSha384, KdfAlg::HkdfSha512];
    let kems = [KemAlg::X25519HkdfSha256, KemAlg::DhP256HkdfSha256];
    for aead_alg in aeads {
        for kem_alg in kems {
            for kdf_alg in kdfs {
                let pt = b"plaintext".to_vec();
                let aad = b"aad".to_vec();
                let info = b"info".to_vec();
                let out = base_round_trip(aead_alg, kem_alg, kdf_alg, &info, &pt, &aad);
                assert_eq!(out, pt);
                let psk = vec![3u8; 32];
                let psk_id = b"psk id".to_vec();
                let out2 = auth_psk_round_trip(
                    aead_alg, kem_alg, kdf_alg, &psk, &psk_id, &info, &pt, &aad,
                );
                assert_eq!(out2, pt);
            }
        }
    }
}
