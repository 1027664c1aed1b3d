use vstd::prelude::*;

verus! {

use crate::agile::{agile_gen_keypair, AgileOpModeR, AgileOpModeRTy, AgileOpModeS, AgileOpModeSTy};
use crate::agile::{AgilePskBundle, AgilePublicKey};
use crate::algs::{AeadAlg, KdfAlg, KemAlg};
use crate::bytes::copy_bytes;
use crate::setup::{agile_setup_receiver, agile_setup_sender, spec_kem_pub};

/// The round-trip property, machine-checked over every cipher, every
/// key-derivation algorithm and every mechanism of the dispatch table: a
/// sender context built in Base mode for a fresh recipient keypair seals
/// the plaintext, the receiver context built independently from the same
/// keypair and the encapsulated key opens it, and the result is the
/// original plaintext — as the `ensures` states for all plaintexts,
/// associated data and info strings in range.
pub fn base_round_trip(
    aead_alg: AeadAlg,
    kem_alg: KemAlg,
    kdf_alg: KdfAlg,
    info: &Vec<u8>,
    pt: &Vec<u8>,
    aad: &Vec<u8>,
) -> (r: Vec<u8>)
    requires
        kem_alg == KemAlg::X25519HkdfSha256 || kem_alg == KemAlg::DhP256HkdfSha256,
        pt@.len() <= 0xFFFF_FFFF,
        aad@.len() <= 0xFFFF_FFFF,
    ensures
        r@ == pt@,
{
    let kex_alg = kem_alg.kex_alg();
    let kp = match agile_gen_keypair(kex_alg) {
        Ok(kp) => kp,
        Err(_) => {
            proof {
                assert(false);
            }
            return Vec::new();
        },
    };
    proof {
        assert(kp.1.pubkey_bytes@ == spec_kem_pub(kem_alg, kp.0.privkey_bytes@));
    }
    let mode_s = AgileOpModeS { kex_alg, kdf_alg, op_mode_ty: AgileOpModeSTy::Base };
    let (ek, ctx1) = match agile_setup_sender(aead_alg, kem_alg, &mode_s, &kp.1, info) {
        Ok(v) => v,
        Err(_) => {
            proof {
                assert(false);
            }
            return Vec::new();
        },
    };
    let mode_r = AgileOpModeR { kex_alg, kdf_alg, op_mode_ty: AgileOpModeRTy::Base };
    let ctx2 = match agile_setup_receiver(aead_alg, kem_alg, &mode_r, &kp, &ek, info) {
        Ok(v) => v,
        Err(_) => {
            proof {
                assert(false);
            }
            return Vec::new();
        },
    };
    assert(ctx1.key@ == ctx2.key@);
    assert(ctx1.base_nonce@ == ctx2.base_nonce@);
    let mut c1 = ctx1;
    let mut c2 = ctx2;
    let (ct, tag) = match c1.seal(pt, aad) {
        Ok(v) => v,
        Err(_) => {
            proof {
                assert(false);
            }
            return Vec::new();
        },
    };
    match c2.open(&ct, aad, &tag) {
        Ok(v) => v,
        Err(_) => {
            proof {
                assert(false);
            }
            Vec::new()
        },
    }
}

/// The round-trip property in AuthPsk mode, the mode that carries every
/// kind of payload: sender and receiver independently build contexts from
/// a shared sender keypair and pre-shared key, and what the sender seals
/// the receiver opens back to the original plaintext.
pub fn auth_psk_round_trip(
    aead_alg: AeadAlg,
    kem_alg: KemAlg,
    kdf_alg: KdfAlg,
    psk: &Vec<u8>,
    psk_id: &Vec<u8>,
    info: &Vec<u8>,
    pt: &Vec<u8>,
    aad: &Vec<u8>,
) -> (r: Vec<u8>)
    requires
        kem_alg == KemAlg::X25519HkdfSha256 || kem_alg == KemAlg::DhP256HkdfSha256,
        pt@.len() <= 0xFFFF_FFFF,
        aad@.len() <= 0xFFFF_FFFF,
    ensures
        r@ == pt@,
{
    let kex_alg = kem_alg.kex_alg();
    let kp = match agile_gen_keypair(kex_alg) {
        Ok(kp) => kp,
        Err(_) => {
            proof {
                assert(false);
            }
            return Vec::new();
        },
    };
    let sender_kp = match agile_gen_keypair(kex_alg) {
        Ok(kp) => kp,
        Err(_) => {
            proof {
                assert(false);
            }
            return Vec::new();
        },
    };
    proof {
        assert(kp.1.pubkey_bytes@ == spec_kem_pub(kem_alg, kp.0.privkey_bytes@));
        assert(sender_kp.1.pubkey_bytes@ == spec_kem_pub(kem_alg, sender_kp.0.privkey_bytes@));
    }
    let bundle_s = AgilePskBundle {
        kex_alg,
        kdf_alg,
        psk_bytes: copy_bytes(psk),
        psk_id: copy_bytes(psk_id),
    };
    let sender_pk = AgilePublicKey {
        kex_alg,
        pubkey_bytes: copy_bytes(&sender_kp.1.pubkey_bytes),
    };
    let bundle_r = AgilePskBundle {
        kex_alg,
        kdf_alg,
        psk_bytes: copy_bytes(psk),
        psk_id: copy_bytes(psk_id),
    };
    let mode_s = AgileOpModeS {
        kex_alg,
        kdf_alg,
        op_mode_ty: AgileOpModeSTy::AuthPsk(sender_kp, bundle_s),
    };
    let (ek, ctx1) = match agile_setup_sender(aead_alg, kem_alg, &mode_s, &kp.1, info) {
        Ok(v) => v,
        Err(_) => {
            proof {
                assert(false);
            }
            return Vec::new();
        },
    };
    let mode_r = AgileOpModeR {
        kex_alg,
        kdf_alg,
        op_mode_ty: AgileOpModeRTy::AuthPsk(sender_pk, bundle_r),
    };
    let ctx2 = match agile_setup_receiver(aead_alg, kem_alg, &mode_r, &kp, &ek, info) {
        Ok(v) => v,
        Err(_) => {
            proof {
                assert(false);
            }
            return Vec::new();
        },
    };
    assert(ctx1.key@ == ctx2.key@);
    assert(ctx1.base_nonce@ == ctx2.base_nonce@);
    let mut c1 = ctx1;
    let mut c2 = ctx2;
    let (ct, tag) = match c1.seal(pt, aad) {
        Ok(v) => v,
        Err(_) => {
            proof {
                assert(false);
            }
            return Vec::new();
        },
    };
    match c2.open(&ct, aad, &tag) {
        Ok(v) => v,
        Err(_) => {
            proof {
                assert(false);
            }
            Vec::new()
        },
    }
}

} // verus!
