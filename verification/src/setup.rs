use vstd::prelude::*;

verus! {

use crate::aead::AgileAeadCtx;
use crate::agile::{
    AgileEncappedKey, AgileKeypair, AgileOpModeR, AgileOpModeRTy, AgileOpModeS, AgileOpModeSTy,
    AgilePublicKey, OpModeR, OpModeS,
};
use crate::algs::{AeadAlg, KdfAlg, KemAlg};
use crate::bytes::{copy_bytes, push_bytes};
use crate::err::{AgileHpkeError, HpkeError};
use crate::kdf::{extract_and_expand, labeled_expand, labeled_extract};
use crate::kdf::{spec_extract_and_expand, spec_labeled_expand, spec_labeled_extract};
use crate::kex::{random_bytes, x25519_agree, x25519_public_of, x25519_smult, spec_x25519_pk};
use crate::kex::{p256_agree, p256_gen_private_key, p256_pub_of, p256_public_of, p256_shared};
use crate::kex::{p256_valid_pk, p256_valid_sk};
use crate::kex::{DhP256, X25519};

/// Which (AEAD, KEM, KDF) triples the dispatch table was built with: every
/// cipher and every key-derivation algorithm, over the mechanisms with a
/// compiled-in backend. A triple outside the table is structurally
/// well-formed but not compiled in.
pub open spec fn spec_combo_supported(aead_alg: AeadAlg, kem_alg: KemAlg, kdf_alg: KdfAlg) -> bool {
    kem_alg == KemAlg::X25519HkdfSha256 || kem_alg == KemAlg::DhP256HkdfSha256
}

fn combo_supported(aead_alg: AeadAlg, kem_alg: KemAlg, kdf_alg: KdfAlg) -> (r: bool)
    ensures
        r == spec_combo_supported(aead_alg, kem_alg, kdf_alg),
{
    match kem_alg {
        KemAlg::X25519HkdfSha256 => true,
        KemAlg::DhP256HkdfSha256 => true,
        _ => false,
    }
}

/// Whether bytes are a valid marshalled private key of the mechanism's
/// key-exchange family.
pub open spec fn spec_kem_sk_valid(kem_alg: KemAlg, sk: Seq<u8>) -> bool {
    match kem_alg {
        KemAlg::X25519HkdfSha256 => sk.len() == 32,
        KemAlg::DhP256HkdfSha256 => sk.len() == 32 && p256_valid_sk(sk),
        _ => false,
    }
}

/// Whether bytes are a valid marshalled public key of the mechanism's
/// key-exchange family.
pub open spec fn spec_kem_pk_valid(kem_alg: KemAlg, pk: Seq<u8>) -> bool {
    match kem_alg {
        KemAlg::X25519HkdfSha256 => pk.len() == 32,
        KemAlg::DhP256HkdfSha256 => pk.len() == 65 && p256_valid_pk(pk),
        _ => false,
    }
}

/// The marshalled public key a private key determines under the
/// mechanism's key-exchange family.
pub open spec fn spec_kem_pub(kem_alg: KemAlg, sk: Seq<u8>) -> Seq<u8> {
    match kem_alg {
        KemAlg::X25519HkdfSha256 => spec_x25519_pk(sk),
        KemAlg::DhP256HkdfSha256 => p256_pub_of(sk),
        _ => Seq::empty(),
    }
}

/// The marshalled shared secret the mechanism's key-agreement computes.
pub open spec fn spec_kem_agree(kem_alg: KemAlg, sk: Seq<u8>, pk: Seq<u8>) -> Seq<u8> {
    match kem_alg {
        KemAlg::X25519HkdfSha256 => x25519_smult(sk, pk),
        KemAlg::DhP256HkdfSha256 => p256_shared(sk, pk),
        _ => Seq::empty(),
    }
}

/// Whether a sender mode's payloads decode under the mechanism's family.
pub open spec fn spec_mode_liftable_s(kem_alg: KemAlg, mode: AgileOpModeS) -> bool {
    match kem_alg {
        KemAlg::X25519HkdfSha256 => mode.spec_liftable::<X25519>(),
        KemAlg::DhP256HkdfSha256 => mode.spec_liftable::<DhP256>(),
        _ => false,
    }
}

/// Whether a receiver mode's payloads decode under the mechanism's family.
pub open spec fn spec_mode_liftable_r(kem_alg: KemAlg, mode: AgileOpModeR) -> bool {
    match kem_alg {
        KemAlg::X25519HkdfSha256 => mode.spec_liftable::<X25519>(),
        KemAlg::DhP256HkdfSha256 => mode.spec_liftable::<DhP256>(),
        _ => false,
    }
}

/// The label under which the key schedule extracts its secret.
pub open spec fn spec_label_secret() -> Seq<u8> {
    seq![115u8, 101u8, 99u8, 114u8, 101u8, 116u8]
}

/// The bytes of `"secret"`.
fn label_secret() -> (r: Vec<u8>)
    ensures
        r@ == spec_label_secret(),
{
    let mut v: Vec<u8> = Vec::new();
    v.push(115u8);
    v.push(101u8);
    v.push(99u8);
    v.push(114u8);
    v.push(101u8);
    v.push(116u8);
    proof {
        assert(v@ =~= spec_label_secret());
    }
    v
}

/// The label under which the key schedule expands the cipher key.
pub open spec fn spec_label_key() -> Seq<u8> {
    seq![107u8, 101u8, 121u8]
}

/// The bytes of `"key"`.
fn label_key() -> (r: Vec<u8>)
    ensures
        r@ == spec_label_key(),
{
    let mut v: Vec<u8> = Vec::new();
    v.push(107u8);
    v.push(101u8);
    v.push(121u8);
    proof {
        assert(v@ =~= spec_label_key());
    }
    v
}

/// The label under which the key schedule expands the base nonce.
pub open spec fn spec_label_nonce() -> Seq<u8> {
    seq![110u8, 111u8, 110u8, 99u8, 101u8]
}

/// The bytes of `"nonce"`.
fn label_nonce() -> (r: Vec<u8>)
    ensures
        r@ == spec_label_nonce(),
{
    let mut v: Vec<u8> = Vec::new();
    v.push(110u8);
    v.push(111u8);
    v.push(110u8);
    v.push(99u8);
    v.push(101u8);
    proof {
        assert(v@ =~= spec_label_nonce());
    }
    v
}

/// The single byte that identifies an operation mode in the key-schedule
/// context: Base 0, Psk 1, Auth 2, AuthPsk 3.
pub open spec fn spec_mode_id_s(ty: AgileOpModeSTy) -> u8 {
    match ty {
        AgileOpModeSTy::Base => 0u8,
        AgileOpModeSTy::Psk(_) => 1u8,
        AgileOpModeSTy::Auth(_) => 2u8,
        AgileOpModeSTy::AuthPsk(_, _) => 3u8,
    }
}

/// The pre-shared key a sender mode carries, or empty.
pub open spec fn spec_psk_s(ty: AgileOpModeSTy) -> Seq<u8> {
    match ty {
        AgileOpModeSTy::Psk(b) => b.psk_bytes@,
        AgileOpModeSTy::AuthPsk(_, b) => b.psk_bytes@,
        _ => Seq::empty(),
    }
}

/// The pre-shared-key identifier a sender mode carries, or empty.
pub open spec fn spec_psk_id_s(ty: AgileOpModeSTy) -> Seq<u8> {
    match ty {
        AgileOpModeSTy::Psk(b) => b.psk_id@,
        AgileOpModeSTy::AuthPsk(_, b) => b.psk_id@,
        _ => Seq::empty(),
    }
}

/// The sender's authentication key material: its keypair's marshalled
/// private and public halves, in the modes that authenticate.
pub open spec fn spec_auth_s(ty: AgileOpModeSTy) -> Option<(Seq<u8>, Seq<u8>)> {
    match ty {
        AgileOpModeSTy::Auth(kp) => Some((kp.0.privkey_bytes@, kp.1.pubkey_bytes@)),
        AgileOpModeSTy::AuthPsk(kp, _) => Some((kp.0.privkey_bytes@, kp.1.pubkey_bytes@)),
        _ => None,
    }
}

/// The same three context fields on the receiver side.
pub open spec fn spec_mode_id_r(ty: AgileOpModeRTy) -> u8 {
    match ty {
        AgileOpModeRTy::Base => 0u8,
        AgileOpModeRTy::Psk(_) => 1u8,
        AgileOpModeRTy::Auth(_) => 2u8,
        AgileOpModeRTy::AuthPsk(_, _) => 3u8,
    }
}

pub open spec fn spec_psk_r(ty: AgileOpModeRTy) -> Seq<u8> {
    match ty {
        AgileOpModeRTy::Psk(b) => b.psk_bytes@,
        AgileOpModeRTy::AuthPsk(_, b) => b.psk_bytes@,
        _ => Seq::empty(),
    }
}

pub open spec fn spec_psk_id_r(ty: AgileOpModeRTy) -> Seq<u8> {
    match ty {
        AgileOpModeRTy::Psk(b) => b.psk_id@,
        AgileOpModeRTy::AuthPsk(_, b) => b.psk_id@,
        _ => Seq::empty(),
    }
}

/// The sender's marshalled public key as a receiver mode carries it, in
/// the modes that authenticate.
pub open spec fn spec_auth_pk_r(ty: AgileOpModeRTy) -> Option<Seq<u8>> {
    match ty {
        AgileOpModeRTy::Auth(pk) => Some(pk.pubkey_bytes@),
        AgileOpModeRTy::AuthPsk(pk, _) => Some(pk.pubkey_bytes@),
        _ => None,
    }
}

/// The shared secret the sender's encapsulation derives: the DH results
/// (ephemeral, then authenticating, if any), extracted and expanded under
/// the mechanism's own KDF over the KEM context
/// `enc || pk_recip || pk_sender?`.
pub open spec fn spec_sender_zz(
    kem_alg: KemAlg,
    ske: Seq<u8>,
    pk_r: Seq<u8>,
    auth: Option<(Seq<u8>, Seq<u8>)>,
) -> Seq<u8> {
    let enc = spec_kem_pub(kem_alg, ske);
    let kem_kdf = kem_alg.spec_kdf_alg();
    match auth {
        None => spec_extract_and_expand(
            kem_kdf,
            spec_kem_agree(kem_alg, ske, pk_r),
            enc + pk_r,
            kem_kdf.spec_digest_len(),
        ),
        Some(a) => spec_extract_and_expand(
            kem_kdf,
            spec_kem_agree(kem_alg, ske, pk_r) + spec_kem_agree(kem_alg, a.0, pk_r),
            enc + pk_r + a.1,
            kem_kdf.spec_digest_len(),
        ),
    }
}

/// The key-schedule context string: the mode identifier byte, the
/// pre-shared-key identifier, then the caller's info string.
pub open spec fn spec_schedule_context(mode_id: u8, psk_id: Seq<u8>, info: Seq<u8>) -> Seq<u8> {
    seq![mode_id] + psk_id + info
}

/// The cipher key the key schedule derives from a shared secret.
pub open spec fn spec_schedule_key(
    aead_alg: AeadAlg,
    kdf_alg: KdfAlg,
    zz: Seq<u8>,
    psk: Seq<u8>,
    psk_id: Seq<u8>,
    mode_id: u8,
    info: Seq<u8>,
) -> Seq<u8> {
    spec_labeled_expand(
        kdf_alg,
        spec_labeled_extract(kdf_alg, psk, spec_label_secret(), zz),
        spec_label_key(),
        spec_schedule_context(mode_id, psk_id, info),
        aead_alg.spec_key_len(),
    )
}

/// The base nonce the key schedule derives from a shared secret.
pub open spec fn spec_schedule_nonce(
    kdf_alg: KdfAlg,
    zz: Seq<u8>,
    psk: Seq<u8>,
    psk_id: Seq<u8>,
    mode_id: u8,
    info: Seq<u8>,
) -> Seq<u8> {
    spec_labeled_expand(
        kdf_alg,
        spec_labeled_extract(kdf_alg, psk, spec_label_secret(), zz),
        spec_label_nonce(),
        spec_schedule_context(mode_id, psk_id, info),
        12,
    )
}

/// Whether a context holds exactly the key material that the sender-side
/// derivation determines from the ephemeral secret, the recipient public
/// key, the authentication material and the mode's context fields, under
/// the given mechanism.
pub open spec fn spec_ctx_derived(
    aead_alg: AeadAlg,
    kem_alg: KemAlg,
    kdf_alg: KdfAlg,
    ske: Seq<u8>,
    pk_r: Seq<u8>,
    auth: Option<(Seq<u8>, Seq<u8>)>,
    psk: Seq<u8>,
    psk_id: Seq<u8>,
    mode_id: u8,
    info: Seq<u8>,
    ctx: AgileAeadCtx,
) -> bool {
    let zz = spec_sender_zz(kem_alg, ske, pk_r, auth);
    ctx.key@ == spec_schedule_key(aead_alg, kdf_alg, zz, psk, psk_id, mode_id, info)
        && ctx.base_nonce@ == spec_schedule_nonce(kdf_alg, zz, psk, psk_id, mode_id, info)
}

/// Derives the cipher key and base nonce from a shared secret and the
/// mode's context fields.
fn key_schedule(
    aead_alg: AeadAlg,
    kdf_alg: KdfAlg,
    zz: &Vec<u8>,
    psk: &Vec<u8>,
    psk_id: &Vec<u8>,
    mode_id: u8,
    info: &Vec<u8>,
) -> (r: (Vec<u8>, Vec<u8>))
    ensures
        r.0@ == spec_schedule_key(aead_alg, kdf_alg, zz@, psk@, psk_id@, mode_id, info@),
        r.1@ == spec_schedule_nonce(kdf_alg, zz@, psk@, psk_id@, mode_id, info@),
        r.0@.len() == aead_alg.spec_key_len(),
        r.1@.len() == 12,
{
    let secret = labeled_extract(kdf_alg, psk, &label_secret(), zz);
    let mut context: Vec<u8> = Vec::new();
    context.push(mode_id);
    push_bytes(&mut context, psk_id);
    push_bytes(&mut context, info);
    proof {
        assert(context@ =~= spec_schedule_context(mode_id, psk_id@, info@));
    }
    let key = match labeled_expand(kdf_alg, &secret, &label_key(), &context, aead_alg.key_len()) {
        Ok(k) => k,
        Err(_) => {
            proof {
                assert(false);
            }
            return (Vec::new(), Vec::new());
        },
    };
    let nonce = match labeled_expand(kdf_alg, &secret, &label_nonce(), &context, 12) {
        Ok(n) => n,
        Err(_) => {
            proof {
                assert(false);
            }
            return (Vec::new(), Vec::new());
        },
    };
    (key, nonce)
}

/// The sender-side setup routine compiled for the X25519 mechanism: lifts
/// the mode and recipient key, encapsulates a fresh shared secret and
/// derives the encryption context. On success there is an ephemeral
/// scalar under which the encapsulated key and the whole context are the
/// sender derivation's output.
fn do_setup_sender_x25519(
    aead_alg: AeadAlg,
    kdf_alg: KdfAlg,
    mode: &AgileOpModeS,
    pk_recip: &AgilePublicKey,
    info: &Vec<u8>,
) -> (r: Result<(AgileEncappedKey, AgileAeadCtx), AgileHpkeError>)
    ensures
        r is Ok <==> spec_mode_liftable_s(KemAlg::X25519HkdfSha256, *mode) && spec_kem_pk_valid(
            KemAlg::X25519HkdfSha256,
            pk_recip.pubkey_bytes@,
        ),
        r matches Err(e) ==> e == AgileHpkeError::HpkeError(HpkeError::Decode),
        r matches Ok((ek, ctx)) ==> ek.kex_alg == mode.kex_alg && ek.encapped_key_bytes@.len()
            == 32 && spec_kem_pk_valid(KemAlg::X25519HkdfSha256, ek.encapped_key_bytes@)
            && ctx.aead_alg == aead_alg && ctx.seq == 0 && ctx.wf() && (exists|ske: Seq<u8>|
            #![auto]
            spec_kem_sk_valid(KemAlg::X25519HkdfSha256, ske) && ek.encapped_key_bytes@
                == spec_kem_pub(KemAlg::X25519HkdfSha256, ske) && spec_ctx_derived(
                aead_alg,
                KemAlg::X25519HkdfSha256,
                kdf_alg,
                ske,
                pk_recip.pubkey_bytes@,
                spec_auth_s(mode.op_mode_ty),
                spec_psk_s(mode.op_mode_ty),
                spec_psk_id_s(mode.op_mode_ty),
                spec_mode_id_s(mode.op_mode_ty),
                info@,
                ctx,
            )),
{
    let m = match mode.try_lift::<X25519>() {
        Ok(m) => m,
        Err(e) => {
            return Err(e);
        },
    };
    let pk_r = match pk_recip.try_lift::<X25519>() {
        Ok(p) => p,
        Err(e) => {
            return Err(e);
        },
    };
    let sk_e = random_bytes(32);
    let enc = x25519_public_of(&sk_e);

    let mut dh = x25519_agree(&sk_e, &pk_r.bytes);
    let mut kem_context = copy_bytes(&enc);
    push_bytes(&mut kem_context, &pk_r.bytes);
    let mut psk: Vec<u8> = Vec::new();
    let mut psk_id: Vec<u8> = Vec::new();
    let mut mode_id: u8 = 0;
    match &m {
        OpModeS::Base => {},
        OpModeS::Psk(b) => {
            mode_id = 1;
            psk = copy_bytes(&b.psk);
            psk_id = copy_bytes(&b.psk_id);
        },
        OpModeS::Auth(kp) => {
            mode_id = 2;
            let dh2 = x25519_agree(&kp.0.bytes, &pk_r.bytes);
            push_bytes(&mut dh, &dh2);
            push_bytes(&mut kem_context, &kp.1.bytes);
        },
        OpModeS::AuthPsk(kp, b) => {
            mode_id = 3;
            let dh2 = x25519_agree(&kp.0.bytes, &pk_r.bytes);
            push_bytes(&mut dh, &dh2);
            push_bytes(&mut kem_context, &kp.1.bytes);
            psk = copy_bytes(&b.psk);
            psk_id = copy_bytes(&b.psk_id);
        },
    }
    let zz = match extract_and_expand(KdfAlg::HkdfSha256, &dh, &kem_context, 32) {
        Ok(z) => z,
        Err(e) => {
            proof {
                assert(false);
            }
            return Err(AgileHpkeError::from_hpke(e));
        },
    };
    let (key, base_nonce) = key_schedule(aead_alg, kdf_alg, &zz, &psk, &psk_id, mode_id, info);
    let ek = AgileEncappedKey { kex_alg: mode.kex_alg, encapped_key_bytes: enc };
    let ctx = AgileAeadCtx { aead_alg, key, base_nonce, seq: 0u64 };
    proof {
        assert(spec_ctx_derived(
            aead_alg,
            KemAlg::X25519HkdfSha256,
            kdf_alg,
            sk_e@,
            pk_recip.pubkey_bytes@,
            spec_auth_s(mode.op_mode_ty),
            spec_psk_s(mode.op_mode_ty),
            spec_psk_id_s(mode.op_mode_ty),
            spec_mode_id_s(mode.op_mode_ty),
            info@,
            ctx,
        ));
    }
    Ok((ek, ctx))
}

/// The sender-side setup routine compiled for the P-256 mechanism,
/// mirroring `do_setup_sender_x25519` over the NIST curve.
fn do_setup_sender_p256(
    aead_alg: AeadAlg,
    kdf_alg: KdfAlg,
    mode: &AgileOpModeS,
    pk_recip: &AgilePublicKey,
    info: &Vec<u8>,
) -> (r: Result<(AgileEncappedKey, AgileAeadCtx), AgileHpkeError>)
    ensures
        r is Ok <==> spec_mode_liftable_s(KemAlg::DhP256HkdfSha256, *mode) && spec_kem_pk_valid(
            KemAlg::DhP256HkdfSha256,
            pk_recip.pubkey_bytes@,
        ),
        r matches Err(e) ==> e == AgileHpkeError::HpkeError(HpkeError::Decode),
        r matches Ok((ek, ctx)) ==> ek.kex_alg == mode.kex_alg && ek.encapped_key_bytes@.len()
            == 65 && spec_kem_pk_valid(KemAlg::DhP256HkdfSha256, ek.encapped_key_bytes@)
            && ctx.aead_alg == aead_alg && ctx.seq == 0 && ctx.wf() && (exists|ske: Seq<u8>|
            #![auto]
            spec_kem_sk_valid(KemAlg::DhP256HkdfSha256, ske) && ek.encapped_key_bytes@
                == spec_kem_pub(KemAlg::DhP256HkdfSha256, ske) && spec_ctx_derived(
                aead_alg,
                KemAlg::DhP256HkdfSha256,
                kdf_alg,
                ske,
                pk_recip.pubkey_bytes@,
                spec_auth_s(mode.op_mode_ty),
                spec_psk_s(mode.op_mode_ty),
                spec_psk_id_s(mode.op_mode_ty),
                spec_mode_id_s(mode.op_mode_ty),
                info@,
                ctx,
            )),
{
    let m = match mode.try_lift::<DhP256>() {
        Ok(m) => m,
        Err(e) => {
            return Err(e);
        },
    };
    let pk_r = match pk_recip.try_lift::<DhP256>() {
        Ok(p) => p,
        Err(e) => {
            return Err(e);
        },
    };
    let sk_e = p256_gen_private_key();
    let enc = p256_public_of(&sk_e);

    let mut dh = p256_agree(&sk_e, &pk_r.bytes);
    let mut kem_context = copy_bytes(&enc);
    push_bytes(&mut kem_context, &pk_r.bytes);
    let mut psk: Vec<u8> = Vec::new();
    let mut psk_id: Vec<u8> = Vec::new();
    let mut mode_id: u8 = 0;
    match &m {
        OpModeS::Base => {},
        OpModeS::Psk(b) => {
            mode_id = 1;
            psk = copy_bytes(&b.psk);
            psk_id = copy_bytes(&b.psk_id);
        },
        OpModeS::Auth(kp) => {
            mode_id = 2;
            let dh2 = p256_agree(&kp.0.bytes, &pk_r.bytes);
            push_bytes(&mut dh, &dh2);
            push_bytes(&mut kem_context, &kp.1.bytes);
        },
        OpModeS::AuthPsk(kp, b) => {
            mode_id = 3;
            let dh2 = p256_agree(&kp.0.bytes, &pk_r.bytes);
            push_bytes(&mut dh, &dh2);
            push_bytes(&mut kem_context, &kp.1.bytes);
            psk = copy_bytes(&b.psk);
            psk_id = copy_bytes(&b.psk_id);
        },
    }
    let zz = match extract_and_expand(KdfAlg::HkdfSha256, &dh, &kem_context, 32) {
        Ok(z) => z,
        Err(e) => {
            proof {
                assert(false);
            }
            return Err(AgileHpkeError::from_hpke(e));
        },
    };
    let (key, base_nonce) = key_schedule(aead_alg, kdf_alg, &zz, &psk, &psk_id, mode_id, info);
    let ek = AgileEncappedKey { kex_alg: mode.kex_alg, encapped_key_bytes: enc };
    let ctx = AgileAeadCtx { aead_alg, key, base_nonce, seq: 0u64 };
    proof {
        assert(spec_ctx_derived(
            aead_alg,
            KemAlg::DhP256HkdfSha256,
            kdf_alg,
            sk_e@,
            pk_recip.pubkey_bytes@,
            spec_auth_s(mode.op_mode_ty),
            spec_psk_s(mode.op_mode_ty),
            spec_psk_id_s(mode.op_mode_ty),
            spec_mode_id_s(mode.op_mode_ty),
            info@,
            ctx,
        ));
    }
    Ok((ek, ctx))
}

/// The receiver-side setup routine compiled for the X25519 mechanism:
/// lifts the mode, keypair and encapsulated key, decapsulates the shared
/// secret and derives the same encryption context. The contract carries
/// the agreement law: for a consistent recipient keypair, whenever the
/// encapsulated key (and, in the authenticated modes, the sender public
/// key) is the public key of some scalar, the derived context is exactly
/// what the sender derivation under that scalar produces.
fn do_setup_receiver_x25519(
    aead_alg: AeadAlg,
    kdf_alg: KdfAlg,
    mode: &AgileOpModeR,
    recip_keypair: &AgileKeypair,
    encapped_key: &AgileEncappedKey,
    info: &Vec<u8>,
) -> (r: Result<AgileAeadCtx, AgileHpkeError>)
    ensures
        r is Ok <==> spec_mode_liftable_r(KemAlg::X25519HkdfSha256, *mode) && spec_kem_sk_valid(
            KemAlg::X25519HkdfSha256,
            recip_keypair.0.privkey_bytes@,
        ) && spec_kem_pk_valid(KemAlg::X25519HkdfSha256, recip_keypair.1.pubkey_bytes@)
            && spec_kem_pk_valid(KemAlg::X25519HkdfSha256, encapped_key.encapped_key_bytes@),
        r matches Err(e) ==> e == AgileHpkeError::HpkeError(HpkeError::Decode),
        r matches Ok(ctx) ==> ctx.aead_alg == aead_alg && ctx.seq == 0 && ctx.wf() && (forall|
            ske: Seq<u8>,
            sks: Seq<u8>,
        |
            #![trigger spec_kem_pub(KemAlg::X25519HkdfSha256, ske), spec_kem_pub(KemAlg::X25519HkdfSha256, sks)]
            (spec_kem_sk_valid(KemAlg::X25519HkdfSha256, ske) && encapped_key.encapped_key_bytes@
                == spec_kem_pub(KemAlg::X25519HkdfSha256, ske) && recip_keypair.1.pubkey_bytes@
                == spec_kem_pub(KemAlg::X25519HkdfSha256, recip_keypair.0.privkey_bytes@) && (
            match spec_auth_pk_r(mode.op_mode_ty) {
                None => true,
                Some(p) => spec_kem_sk_valid(KemAlg::X25519HkdfSha256, sks) && p == spec_kem_pub(
                    KemAlg::X25519HkdfSha256,
                    sks,
                ),
            })) ==> spec_ctx_derived(
                aead_alg,
                KemAlg::X25519HkdfSha256,
                kdf_alg,
                ske,
                recip_keypair.1.pubkey_bytes@,
                (match spec_auth_pk_r(mode.op_mode_ty) {
                    None => None,
                    Some(p) => Some((sks, p)),
                }),
                spec_psk_r(mode.op_mode_ty),
                spec_psk_id_r(mode.op_mode_ty),
                spec_mode_id_r(mode.op_mode_ty),
                info@,
                ctx,
            )),
{
    let m = match mode.try_lift::<X25519>() {
        Ok(m) => m,
        Err(e) => {
            return Err(e);
        },
    };
    let kp = match recip_keypair.try_lift::<X25519>() {
        Ok(kp) => kp,
        Err(e) => {
            return Err(e);
        },
    };
    let enc = match encapped_key.try_lift::<X25519>() {
        Ok(p) => p,
        Err(e) => {
            return Err(e);
        },
    };
    let (sk_r, pk_r) = kp;

    let mut dh = x25519_agree(&sk_r.bytes, &enc.bytes);
    let mut kem_context = copy_bytes(&enc.bytes);
    push_bytes(&mut kem_context, &pk_r.bytes);
    let mut psk: Vec<u8> = Vec::new();
    let mut psk_id: Vec<u8> = Vec::new();
    let mut mode_id: u8 = 0;
    match &m {
        OpModeR::Base => {},
        OpModeR::Psk(b) => {
            mode_id = 1;
            psk = copy_bytes(&b.psk);
            psk_id = copy_bytes(&b.psk_id);
        },
        OpModeR::Auth(pk_s) => {
            mode_id = 2;
            let dh2 = x25519_agree(&sk_r.bytes, &pk_s.bytes);
            push_bytes(&mut dh, &dh2);
            push_bytes(&mut kem_context, &pk_s.bytes);
        },
        OpModeR::AuthPsk(pk_s, b) => {
            mode_id = 3;
            let dh2 = x25519_agree(&sk_r.bytes, &pk_s.bytes);
            push_bytes(&mut dh, &dh2);
            push_bytes(&mut kem_context, &pk_s.bytes);
            psk = copy_bytes(&b.psk);
            psk_id = copy_bytes(&b.psk_id);
        },
    }
    let zz = match extract_and_expand(KdfAlg::HkdfSha256, &dh, &kem_context, 32) {
        Ok(z) => z,
        Err(e) => {
            proof {
                assert(false);
            }
            return Err(AgileHpkeError::from_hpke(e));
        },
    };
    let (key, base_nonce) = key_schedule(aead_alg, kdf_alg, &zz, &psk, &psk_id, mode_id, info);
    let ctx = AgileAeadCtx { aead_alg, key, base_nonce, seq: 0u64 };
    Ok(ctx)
}

/// The receiver-side setup routine compiled for the P-256 mechanism,
/// mirroring `do_setup_receiver_x25519` over the NIST curve, agreement
/// law included.
fn do_setup_receiver_p256(
    aead_alg: AeadAlg,
    kdf_alg: KdfAlg,
    mode: &AgileOpModeR,
    recip_keypair: &AgileKeypair,
    encapped_key: &AgileEncappedKey,
    info: &Vec<u8>,
) -> (r: Result<AgileAeadCtx, AgileHpkeError>)
    ensures
        r is Ok <==> spec_mode_liftable_r(KemAlg::DhP256HkdfSha256, *mode) && spec_kem_sk_valid(
            KemAlg::DhP256HkdfSha256,
            recip_keypair.0.privkey_bytes@,
        ) && spec_kem_pk_valid(KemAlg::DhP256HkdfSha256, recip_keypair.1.pubkey_bytes@)
            && spec_kem_pk_valid(KemAlg::DhP256HkdfSha256, encapped_key.encapped_key_bytes@),
        r matches Err(e) ==> e == AgileHpkeError::HpkeError(HpkeError::Decode),
        r matches Ok(ctx) ==> ctx.aead_alg == aead_alg && ctx.seq == 0 && ctx.wf() && (forall|
            ske: Seq<u8>,
            sks: Seq<u8>,
        |
            #![trigger spec_kem_pub(KemAlg::DhP256HkdfSha256, ske), spec_kem_pub(KemAlg::DhP256HkdfSha256, sks)]
            (spec_kem_sk_valid(KemAlg::DhP256HkdfSha256, ske) && encapped_key.encapped_key_bytes@
                == spec_kem_pub(KemAlg::DhP256HkdfSha256, ske) && recip_keypair.1.pubkey_bytes@
                == spec_kem_pub(KemAlg::DhP256HkdfSha256, recip_keypair.0.privkey_bytes@) && (
            match spec_auth_pk_r(mode.op_mode_ty) {
                None => true,
                Some(p) => spec_kem_sk_valid(KemAlg::DhP256HkdfSha256, sks) && p == spec_kem_pub(
                    KemAlg::DhP256HkdfSha256,
                    sks,
                ),
            })) ==> spec_ctx_derived(
                aead_alg,
                KemAlg::DhP256HkdfSha256,
                kdf_alg,
                ske,
                recip_keypair.1.pubkey_bytes@,
                (match spec_auth_pk_r(mode.op_mode_ty) {
                    None => None,
                    Some(p) => Some((sks, p)),
                }),
                spec_psk_r(mode.op_mode_ty),
                spec_psk_id_r(mode.op_mode_ty),
                spec_mode_id_r(mode.op_mode_ty),
                info@,
                ctx,
            )),
{
    let m = match mode.try_lift::<DhP256>() {
        Ok(m) => m,
        Err(e) => {
            return Err(e);
        },
    };
    let kp = match recip_keypair.try_lift::<DhP256>() {
        Ok(kp) => kp,
        Err(e) => {
            return Err(e);
        },
    };
    let enc = match encapped_key.try_lift::<DhP256>() {
        Ok(p) => p,
        Err(e) => {
            return Err(e);
        },
    };
    let (sk_r, pk_r) = kp;

    let mut dh = p256_agree(&sk_r.bytes, &enc.bytes);
    let mut kem_context = copy_bytes(&enc.bytes);
    push_bytes(&mut kem_context, &pk_r.bytes);
    let mut psk: Vec<u8> = Vec::new();
    let mut psk_id: Vec<u8> = Vec::new();
    let mut mode_id: u8 = 0;
    match &m {
        OpModeR::Base => {},
        OpModeR::Psk(b) => {
            mode_id = 1;
            psk = copy_bytes(&b.psk);
            psk_id = copy_bytes(&b.psk_id);
        },
        OpModeR::Auth(pk_s) => {
            mode_id = 2;
            let dh2 = p256_agree(&sk_r.bytes, &pk_s.bytes);
            push_bytes(&mut dh, &dh2);
            push_bytes(&mut kem_context, &pk_s.bytes);
        },
        OpModeR::AuthPsk(pk_s, b) => {
            mode_id = 3;
            let dh2 = p256_agree(&sk_r.bytes, &pk_s.bytes);
            push_bytes(&mut dh, &dh2);
            push_bytes(&mut kem_context, &pk_s.bytes);
            psk = copy_bytes(&b.psk);
            psk_id = copy_bytes(&b.psk_id);
        },
    }
    let zz = match extract_and_expand(KdfAlg::HkdfSha256, &dh, &kem_context, 32) {
        Ok(z) => z,
        Err(e) => {
            proof {
                assert(false);
            }
            return Err(AgileHpkeError::from_hpke(e));
        },
    };
    let (key, base_nonce) = key_schedule(aead_alg, kdf_alg, &zz, &psk, &psk_id, mode_id, info);
    let ctx = AgileAeadCtx { aead_alg, key, base_nonce, seq: 0u64 };
    Ok(ctx)
}

/// The exact validation outcome of `agile_setup_sender` before any
/// cryptographic operation: the mode validates itself, the recipient
/// key's family must equal the mode's, the mechanism's family must equal
/// the mode's, and the triple must be compiled in; the first failure
/// decides.
pub open spec fn spec_setup_sender_precheck(
    aead_alg: AeadAlg,
    kem_alg: KemAlg,
    mode: AgileOpModeS,
    pk_recip: AgilePublicKey,
) -> Result<(), AgileHpkeError> {
    if mode.spec_validate() is Err {
        mode.spec_validate()
    } else if mode.kex_alg != pk_recip.kex_alg {
        Err(
            AgileHpkeError::AlgMismatch(
                (mode.kex_alg.spec_name(), "mode::kex_alg"),
                (pk_recip.kex_alg.spec_name(), "pk_recip::kex_alg"),
            ),
        )
    } else if kem_alg.spec_kex_alg() != mode.kex_alg {
        Err(
            AgileHpkeError::AlgMismatch(
                (kem_alg.spec_kex_alg().spec_name(), "kem_alg::kex_alg"),
                (mode.kex_alg.spec_name(), "mode::kex_alg"),
            ),
        )
    } else if pk_recip.kex_alg != mode.kex_alg {
        Err(
            AgileHpkeError::AlgMismatch(
                (pk_recip.kex_alg.spec_name(), "pk_recip::kex_alg"),
                (mode.kex_alg.spec_name(), "mode::kex_alg"),
            ),
        )
    } else if !spec_combo_supported(aead_alg, kem_alg, mode.kdf_alg) {
        Err(AgileHpkeError::UnsupportedCombination)
    } else {
        Ok(())
    }
}

/// A tag inconsistency is raised before any cryptographic operation: the
/// sender precheck fails with `AlgMismatch` whenever the mode's own tags
/// disagree or the recipient key's or mechanism's family differs from the
/// mode's declaration.
pub proof fn lemma_sender_mismatch_raised_first(
    aead_alg: AeadAlg,
    kem_alg: KemAlg,
    mode: AgileOpModeS,
    pk_recip: AgilePublicKey,
)
    requires
        !mode.spec_tags_consistent() || mode.kex_alg != pk_recip.kex_alg || kem_alg.spec_kex_alg()
            != mode.kex_alg,
    ensures
        spec_setup_sender_precheck(aead_alg, kem_alg, mode, pk_recip) is Err,
        spec_setup_sender_precheck(aead_alg, kem_alg, mode, pk_recip)->Err_0 is AlgMismatch,
{
}

/// Sets up a sender encryption context for a runtime-selected algorithm
/// triple: runs every cross-tag validation, consults the dispatch table,
/// lifts the tagged values, encapsulates to the recipient key and returns
/// the encapsulated key, tagged with the original family, together with
/// the context. A triple outside the table is reported as
/// `UnsupportedCombination`, never reached.
pub fn agile_setup_sender(
    aead_alg: AeadAlg,
    kem_alg: KemAlg,
    mode: &AgileOpModeS,
    pk_recip: &AgilePublicKey,
    info: &Vec<u8>,
) -> (r: Result<(AgileEncappedKey, AgileAeadCtx), AgileHpkeError>)
    ensures
        r is Ok <==> spec_setup_sender_precheck(aead_alg, kem_alg, *mode, *pk_recip) is Ok
            && spec_mode_liftable_s(kem_alg, *mode) && spec_kem_pk_valid(
            kem_alg,
            pk_recip.pubkey_bytes@,
        ),
        r matches Err(e) ==> e == (if spec_setup_sender_precheck(
            aead_alg,
            kem_alg,
            *mode,
            *pk_recip,
        ) is Err {
            spec_setup_sender_precheck(aead_alg, kem_alg, *mode, *pk_recip)->Err_0
        } else {
            AgileHpkeError::HpkeError(HpkeError::Decode)
        }),
        r matches Ok((ek, ctx)) ==> ek.kex_alg == mode.kex_alg && ek.encapped_key_bytes@.len()
            == kem_alg.spec_kex_alg().spec_pubkey_len() && spec_kem_pk_valid(
            kem_alg,
            ek.encapped_key_bytes@,
        ) && ctx.aead_alg == aead_alg && ctx.seq == 0 && ctx.wf() && (exists|ske: Seq<u8>|
            #![auto]
            spec_kem_sk_valid(kem_alg, ske) && ek.encapped_key_bytes@ == spec_kem_pub(kem_alg, ske)
                && spec_ctx_derived(
                aead_alg,
                kem_alg,
                mode.kdf_alg,
                ske,
                pk_recip.pubkey_bytes@,
                spec_auth_s(mode.op_mode_ty),
                spec_psk_s(mode.op_mode_ty),
                spec_psk_id_s(mode.op_mode_ty),
                spec_mode_id_s(mode.op_mode_ty),
                info@,
                ctx,
            )),
{
    match mode.validate() {
        Ok(()) => {},
        Err(e) => {
            return Err(e);
        },
    }
    if mode.kex_alg != pk_recip.kex_alg {
        return Err(
            AgileHpkeError::AlgMismatch(
                (mode.kex_alg.name(), "mode::kex_alg"),
                (pk_recip.kex_alg.name(), "pk_recip::kex_alg"),
            ),
        );
    }
    if kem_alg.kex_alg() != mode.kex_alg {
        return Err(
            AgileHpkeError::AlgMismatch(
                (kem_alg.kex_alg().name(), "kem_alg::kex_alg"),
                (mode.kex_alg.name(), "mode::kex_alg"),
            ),
        );
    }
    if pk_recip.kex_alg != mode.kex_alg {
        return Err(
            AgileHpkeError::AlgMismatch(
                (pk_recip.kex_alg.name(), "pk_recip::kex_alg"),
                (mode.kex_alg.name(), "mode::kex_alg"),
            ),
        );
    }
    if !combo_supported(aead_alg, kem_alg, mode.kdf_alg) {
        return Err(AgileHpkeError::UnsupportedCombination);
    }
    match kem_alg {
        KemAlg::X25519HkdfSha256 => do_setup_sender_x25519(
            aead_alg,
            mode.kdf_alg,
            mode,
            pk_recip,
            info,
        ),
        KemAlg::DhP256HkdfSha256 => do_setup_sender_p256(
            aead_alg,
            mode.kdf_alg,
            mode,
            pk_recip,
            info,
        ),
        _ => Err(AgileHpkeError::UnsupportedCombination),
    }
}

/// The exact validation outcome of `agile_setup_receiver` before any
/// cryptographic operation: the keypair validates itself, then the mode,
/// then the keypair's family must equal the mode's, the mechanism's
/// family must equal the mode's, the encapsulated key's family must equal
/// the keypair's, and the triple must be compiled in; the first failure
/// decides.
pub open spec fn spec_setup_receiver_precheck(
    aead_alg: AeadAlg,
    kem_alg: KemAlg,
    mode: AgileOpModeR,
    recip_keypair: AgileKeypair,
    encapped_key: AgileEncappedKey,
) -> Result<(), AgileHpkeError> {
    if !recip_keypair.spec_tags_match() {
        Err(recip_keypair.spec_validate_err())
    } else if mode.spec_validate() is Err {
        mode.spec_validate()
    } else if mode.kex_alg != recip_keypair.0.kex_alg {
        Err(
            AgileHpkeError::AlgMismatch(
                (mode.kex_alg.spec_name(), "mode::kex_alg"),
                (recip_keypair.0.kex_alg.spec_name(), "recip_keypair::kex_alg"),
            ),
        )
    } else if kem_alg.spec_kex_alg() != mode.kex_alg {
        Err(
            AgileHpkeError::AlgMismatch(
                (kem_alg.spec_kex_alg().spec_name(), "kem_alg::kex_alg"),
                (mode.kex_alg.spec_name(), "mode::kex_alg"),
            ),
        )
    } else if recip_keypair.0.kex_alg != encapped_key.kex_alg {
        Err(
            AgileHpkeError::AlgMismatch(
                (recip_keypair.0.kex_alg.spec_name(), "recip_keypair::kex_alg"),
                (encapped_key.kex_alg.spec_name(), "encapped_key::kex_alg"),
            ),
        )
    } else if !spec_combo_supported(aead_alg, kem_alg, mode.kdf_alg) {
        Err(AgileHpkeError::UnsupportedCombination)
    } else {
        Ok(())
    }
}

/// The receiver-side statement of the same law: the precheck fails with
/// `AlgMismatch` whenever the keypair's halves, the mode's tags, or the
/// keypair's, mechanism's or encapsulated key's families disagree.
pub proof fn lemma_receiver_mismatch_raised_first(
    aead_alg: AeadAlg,
    kem_alg: KemAlg,
    mode: AgileOpModeR,
    recip_keypair: AgileKeypair,
    encapped_key: AgileEncappedKey,
)
    requires
        !recip_keypair.spec_tags_match() || !mode.spec_tags_consistent() || mode.kex_alg
            != recip_keypair.0.kex_alg || kem_alg.spec_kex_alg() != mode.kex_alg
            || recip_keypair.0.kex_alg != encapped_key.kex_alg,
    ensures
        spec_setup_receiver_precheck(aead_alg, kem_alg, mode, recip_keypair, encapped_key) is Err,
        spec_setup_receiver_precheck(
            aead_alg,
            kem_alg,
            mode,
            recip_keypair,
            encapped_key,
        )->Err_0 is AlgMismatch,
{
}

/// Sets up a receiver encryption context for a runtime-selected algorithm
/// triple: runs every cross-tag validation, consults the dispatch table,
/// lifts the tagged values, decapsulates the shared secret and returns
/// the context. The contract carries the agreement law of the concrete
/// setup routines: for a consistent keypair, the context is exactly what
/// the matching sender derivation produces.
pub fn agile_setup_receiver(
    aead_alg: AeadAlg,
    kem_alg: KemAlg,
    mode: &AgileOpModeR,
    recip_keypair: &AgileKeypair,
    encapped_key: &AgileEncappedKey,
    info: &Vec<u8>,
) -> (r: Result<AgileAeadCtx, AgileHpkeError>)
    ensures
        r is Ok <==> spec_setup_receiver_precheck(
            aead_alg,
            kem_alg,
            *mode,
            *recip_keypair,
            *encapped_key,
        ) is Ok && spec_mode_liftable_r(kem_alg, *mode) && spec_kem_sk_valid(
            kem_alg,
            recip_keypair.0.privkey_bytes@,
        ) && spec_kem_pk_valid(kem_alg, recip_keypair.1.pubkey_bytes@) && spec_kem_pk_valid(
            kem_alg,
            encapped_key.encapped_key_bytes@,
        ),
        r matches Err(e) ==> e == (if spec_setup_receiver_precheck(
            aead_alg,
            kem_alg,
            *mode,
            *recip_keypair,
            *encapped_key,
        ) is Err {
            spec_setup_receiver_precheck(
                aead_alg,
                kem_alg,
                *mode,
                *recip_keypair,
                *encapped_key,
            )->Err_0
        } else {
            AgileHpkeError::HpkeError(HpkeError::Decode)
        }),
        r matches Ok(ctx) ==> ctx.aead_alg == aead_alg && ctx.seq == 0 && ctx.wf() && (forall|
            ske: Seq<u8>,
            sks: Seq<u8>,
        |
            #![trigger spec_kem_pub(kem_alg, ske), spec_kem_pub(kem_alg, sks)]
            (spec_kem_sk_valid(kem_alg, ske) && encapped_key.encapped_key_bytes@ == spec_kem_pub(
                kem_alg,
                ske,
            ) && recip_keypair.1.pubkey_bytes@ == spec_kem_pub(
                kem_alg,
                recip_keypair.0.privkey_bytes@,
            ) && (match spec_auth_pk_r(mode.op_mode_ty) {
                None => true,
                Some(p) => spec_kem_sk_valid(kem_alg, sks) && p == spec_kem_pub(kem_alg, sks),
            })) ==> spec_ctx_derived(
                aead_alg,
                kem_alg,
                mode.kdf_alg,
                ske,
                recip_keypair.1.pubkey_bytes@,
                (match spec_auth_pk_r(mode.op_mode_ty) {
                    None => None,
                    Some(p) => Some((sks, p)),
                }),
                spec_psk_r(mode.op_mode_ty),
                spec_psk_id_r(mode.op_mode_ty),
                spec_mode_id_r(mode.op_mode_ty),
                info@,
                ctx,
            )),
{
    match recip_keypair.validate() {
        Ok(()) => {},
        Err(e) => {
            return Err(e);
        },
    }
    match mode.validate() {
        Ok(()) => {},
        Err(e) => {
            return Err(e);
        },
    }
    if mode.kex_alg != recip_keypair.0.kex_alg {
        return Err(
            AgileHpkeError::AlgMismatch(
                (mode.kex_alg.name(), "mode::kex_alg"),
                (recip_keypair.0.kex_alg.name(), "recip_keypair::kex_alg"),
            ),
        );
    }
    if kem_alg.kex_alg() != mode.kex_alg {
        return Err(
            AgileHpkeError::AlgMismatch(
                (kem_alg.kex_alg().name(), "kem_alg::kex_alg"),
                (mode.kex_alg.name(), "mode::kex_alg"),
            ),
        );
    }
    if recip_keypair.0.kex_alg != encapped_key.kex_alg {
        return Err(
            AgileHpkeError::AlgMismatch(
                (recip_keypair.0.kex_alg.name(), "recip_keypair::kex_alg"),
                (encapped_key.kex_alg.name(), "encapped_key::kex_alg"),
            ),
        );
    }
    if !combo_supported(aead_alg, kem_alg, mode.kdf_alg) {
        return Err(AgileHpkeError::UnsupportedCombination);
    }
    match kem_alg {
        KemAlg::X25519HkdfSha256 => do_setup_receiver_x25519(
            aead_alg,
            mode.kdf_alg,
            mode,
            recip_keypair,
            encapped_key,
            info,
        ),
        KemAlg::DhP256HkdfSha256 => do_setup_receiver_p256(
            aead_alg,
            mode.kdf_alg,
            mode,
            recip_keypair,
            encapped_key,
            info,
        ),
        _ => Err(AgileHpkeError::UnsupportedCombination),
    }
}

} // verus!
