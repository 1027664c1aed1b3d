use vstd::prelude::*;

use aes_gcm::{AeadInPlace, KeyInit};

verus! {

use crate::algs::AeadAlg;
use crate::err::HpkeError;

/// The AES-128-GCM ciphertext for a key, nonce, associated data and
/// plaintext.
pub uninterp spec fn aes128_gcm_ct(key: Seq<u8>, nonce: Seq<u8>, aad: Seq<u8>, pt: Seq<u8>) -> Seq<u8>;

/// The AES-128-GCM detached authentication tag for the same inputs.
pub uninterp spec fn aes128_gcm_tag(key: Seq<u8>, nonce: Seq<u8>, aad: Seq<u8>, pt: Seq<u8>) -> Seq<u8>;

/// What AES-128-GCM authenticated decryption returns: the plaintext when
/// the tag authenticates the ciphertext and associated data, nothing
/// otherwise.
pub uninterp spec fn aes128_gcm_open(
    key: Seq<u8>,
    nonce: Seq<u8>,
    aad: Seq<u8>,
    ct: Seq<u8>,
    tag: Seq<u8>,
) -> Option<Seq<u8>>;

/// The AES-256-GCM ciphertext.
pub uninterp spec fn aes256_gcm_ct(key: Seq<u8>, nonce: Seq<u8>, aad: Seq<u8>, pt: Seq<u8>) -> Seq<u8>;

/// The AES-256-GCM detached authentication tag.
pub uninterp spec fn aes256_gcm_tag(key: Seq<u8>, nonce: Seq<u8>, aad: Seq<u8>, pt: Seq<u8>) -> Seq<u8>;

/// What AES-256-GCM authenticated decryption returns.
pub uninterp spec fn aes256_gcm_open(
    key: Seq<u8>,
    nonce: Seq<u8>,
    aad: Seq<u8>,
    ct: Seq<u8>,
    tag: Seq<u8>,
) -> Option<Seq<u8>>;

/// The ChaCha20-Poly1305 ciphertext.
pub uninterp spec fn chacha20_poly1305_ct(key: Seq<u8>, nonce: Seq<u8>, aad: Seq<u8>, pt: Seq<u8>) -> Seq<u8>;

/// The ChaCha20-Poly1305 detached authentication tag.
pub uninterp spec fn chacha20_poly1305_tag(key: Seq<u8>, nonce: Seq<u8>, aad: Seq<u8>, pt: Seq<u8>) -> Seq<u8>;

/// What ChaCha20-Poly1305 authenticated decryption returns.
pub uninterp spec fn chacha20_poly1305_open(
    key: Seq<u8>,
    nonce: Seq<u8>,
    aad: Seq<u8>,
    ct: Seq<u8>,
    tag: Seq<u8>,
) -> Option<Seq<u8>>;

/// Relies on aes_gcm::Aes128Gcm (KeyInit::new_from_slice,
/// AeadInPlace::encrypt_in_place_detached): sealing is deterministic in
/// key, nonce, associated data and plaintext, the ciphertext has the
/// plaintext's length, the detached tag is 16 bytes, and decrypting the
/// sealed pair returns the plaintext.
#[verifier::external_body]
fn aes128_seal(key: &Vec<u8>, nonce: &Vec<u8>, aad: &Vec<u8>, pt: &Vec<u8>) -> (r: (Vec<u8>, Vec<u8>))
    requires
        key@.len() == 16,
        nonce@.len() == 12,
        pt@.len() <= 0xFFFF_FFFF,
        aad@.len() <= 0xFFFF_FFFF,
    ensures
        r.0@ == aes128_gcm_ct(key@, nonce@, aad@, pt@),
        r.1@ == aes128_gcm_tag(key@, nonce@, aad@, pt@),
        r.0@.len() == pt@.len(),
        r.1@.len() == 16,
        aes128_gcm_open(key@, nonce@, aad@, r.0@, r.1@) == Some(pt@),
{
    let cipher = aes_gcm::Aes128Gcm::new_from_slice(key.as_slice()).unwrap();
    let mut buf = pt.clone();
    let tag = cipher
        .encrypt_in_place_detached(
            aes_gcm::Nonce::from_slice(nonce.as_slice()),
            aad.as_slice(),
            &mut buf,
        )
        .unwrap();
    (buf, tag.to_vec())
}

/// Relies on aes_gcm::Aes128Gcm (KeyInit::new_from_slice,
/// AeadInPlace::decrypt_in_place_detached): decryption is deterministic in
/// its five inputs, succeeds exactly when the tag authenticates, and then
/// returns a plaintext of the ciphertext's length.
#[verifier::external_body]
fn aes128_open(key: &Vec<u8>, nonce: &Vec<u8>, aad: &Vec<u8>, ct: &Vec<u8>, tag: &Vec<u8>) -> (r:
    Result<Vec<u8>, HpkeError>)
    requires
        key@.len() == 16,
        nonce@.len() == 12,
        ct@.len() <= 0xFFFF_FFFF,
        aad@.len() <= 0xFFFF_FFFF,
        tag@.len() == 16,
    ensures
        r is Ok <==> aes128_gcm_open(key@, nonce@, aad@, ct@, tag@) is Some,
        r matches Ok(pt) ==> aes128_gcm_open(key@, nonce@, aad@, ct@, tag@) == Some(pt@)
            && pt@.len() == ct@.len(),
        r matches Err(e) ==> e == HpkeError::Open,
{
    let cipher = aes_gcm::Aes128Gcm::new_from_slice(key.as_slice()).unwrap();
    let mut buf = ct.clone();
    match cipher.decrypt_in_place_detached(
        aes_gcm::Nonce::from_slice(nonce.as_slice()),
        aad.as_slice(),
        &mut buf,
        aes_gcm::Tag::from_slice(tag.as_slice()),
    ) {
        Ok(()) => Ok(buf),
        Err(_) => Err(HpkeError::Open),
    }
}

/// Relies on aes_gcm::Aes256Gcm, as `aes128_seal` does.
#[verifier::external_body]
fn aes256_seal(key: &Vec<u8>, nonce: &Vec<u8>, aad: &Vec<u8>, pt: &Vec<u8>) -> (r: (Vec<u8>, Vec<u8>))
    requires
        key@.len() == 32,
        nonce@.len() == 12,
        pt@.len() <= 0xFFFF_FFFF,
        aad@.len() <= 0xFFFF_FFFF,
    ensures
        r.0@ == aes256_gcm_ct(key@, nonce@, aad@, pt@),
        r.1@ == aes256_gcm_tag(key@, nonce@, aad@, pt@),
        r.0@.len() == pt@.len(),
        r.1@.len() == 16,
        aes256_gcm_open(key@, nonce@, aad@, r.0@, r.1@) == Some(pt@),
{
    let cipher = aes_gcm::Aes256Gcm::new_from_slice(key.as_slice()).unwrap();
    let mut buf = pt.clone();
    let tag = cipher
        .encrypt_in_place_detached(
            aes_gcm::Nonce::from_slice(nonce.as_slice()),
            aad.as_slice(),
            &mut buf,
        )
        .unwrap();
    (buf, tag.to_vec())
}

/// Relies on aes_gcm::Aes256Gcm, as `aes128_open` does.
#[verifier::external_body]
fn aes256_open(key: &Vec<u8>, nonce: &Vec<u8>, aad: &Vec<u8>, ct: &Vec<u8>, tag: &Vec<u8>) -> (r:
    Result<Vec<u8>, HpkeError>)
    requires
        key@.len() == 32,
        nonce@.len() == 12,
        ct@.len() <= 0xFFFF_FFFF,
        aad@.len() <= 0xFFFF_FFFF,
        tag@.len() == 16,
    ensures
        r is Ok <==> aes256_gcm_open(key@, nonce@, aad@, ct@, tag@) is Some,
        r matches Ok(pt) ==> aes256_gcm_open(key@, nonce@, aad@, ct@, tag@) == Some(pt@)
            && pt@.len() == ct@.len(),
        r matches Err(e) ==> e == HpkeError::Open,
{
    let cipher = aes_gcm::Aes256Gcm::new_from_slice(key.as_slice()).unwrap();
    let mut buf = ct.clone();
    match cipher.decrypt_in_place_detached(
        aes_gcm::Nonce::from_slice(nonce.as_slice()),
        aad.as_slice(),
        &mut buf,
        aes_gcm::Tag::from_slice(tag.as_slice()),
    ) {
        Ok(()) => Ok(buf),
        Err(_) => Err(HpkeError::Open),
    }
}

/// Relies on chacha20poly1305::ChaCha20Poly1305, as `aes128_seal` does.
#[verifier::external_body]
fn chacha20_seal(key: &Vec<u8>, nonce: &Vec<u8>, aad: &Vec<u8>, pt: &Vec<u8>) -> (r: (Vec<u8>, Vec<u8>))
    requires
        key@.len() == 32,
        nonce@.len() == 12,
        pt@.len() <= 0xFFFF_FFFF,
        aad@.len() <= 0xFFFF_FFFF,
    ensures
        r.0@ == chacha20_poly1305_ct(key@, nonce@, aad@, pt@),
        r.1@ == chacha20_poly1305_tag(key@, nonce@, aad@, pt@),
        r.0@.len() == pt@.len(),
        r.1@.len() == 16,
        chacha20_poly1305_open(key@, nonce@, aad@, r.0@, r.1@) == Some(pt@),
{
    let cipher = chacha20poly1305::ChaCha20Poly1305::new_from_slice(key.as_slice()).unwrap();
    let mut buf = pt.clone();
    let tag = cipher
        .encrypt_in_place_detached(
            chacha20poly1305::Nonce::from_slice(nonce.as_slice()),
            aad.as_slice(),
            &mut buf,
        )
        .unwrap();
    (buf, tag.to_vec())
}

/// Relies on chacha20poly1305::ChaCha20Poly1305, as `aes128_open` does.
#[verifier::external_body]
fn chacha20_open(key: &Vec<u8>, nonce: &Vec<u8>, aad: &Vec<u8>, ct: &Vec<u8>, tag: &Vec<u8>) -> (r:
    Result<Vec<u8>, HpkeError>)
    requires
        key@.len() == 32,
        nonce@.len() == 12,
        ct@.len() <= 0xFFFF_FFFF,
        aad@.len() <= 0xFFFF_FFFF,
        tag@.len() == 16,
    ensures
        r is Ok <==> chacha20_poly1305_open(key@, nonce@, aad@, ct@, tag@) is Some,
        r matches Ok(pt) ==> chacha20_poly1305_open(key@, nonce@, aad@, ct@, tag@) == Some(pt@)
            && pt@.len() == ct@.len(),
        r matches Err(e) ==> e == HpkeError::Open,
{
    let cipher = chacha20poly1305::ChaCha20Poly1305::new_from_slice(key.as_slice()).unwrap();
    let mut buf = ct.clone();
    match cipher.decrypt_in_place_detached(
        chacha20poly1305::Nonce::from_slice(nonce.as_slice()),
        aad.as_slice(),
        &mut buf,
        chacha20poly1305::Tag::from_slice(tag.as_slice()),
    ) {
        Ok(()) => Ok(buf),
        Err(_) => Err(HpkeError::Open),
    }
}

/// The ciphertext the registry-selected cipher produces.
pub open spec fn spec_aead_ct(alg: AeadAlg, key: Seq<u8>, nonce: Seq<u8>, aad: Seq<u8>, pt: Seq<u8>) -> Seq<u8> {
    match alg {
        AeadAlg::AesGcm128 => aes128_gcm_ct(key, nonce, aad, pt),
        AeadAlg::AesGcm256 => aes256_gcm_ct(key, nonce, aad, pt),
        AeadAlg::ChaCha20Poly1305 => chacha20_poly1305_ct(key, nonce, aad, pt),
    }
}

/// The detached tag the registry-selected cipher produces.
pub open spec fn spec_aead_tag(alg: AeadAlg, key: Seq<u8>, nonce: Seq<u8>, aad: Seq<u8>, pt: Seq<u8>) -> Seq<u8> {
    match alg {
        AeadAlg::AesGcm128 => aes128_gcm_tag(key, nonce, aad, pt),
        AeadAlg::AesGcm256 => aes256_gcm_tag(key, nonce, aad, pt),
        AeadAlg::ChaCha20Poly1305 => chacha20_poly1305_tag(key, nonce, aad, pt),
    }
}

/// What the registry-selected cipher's authenticated decryption returns.
pub open spec fn spec_aead_open(
    alg: AeadAlg,
    key: Seq<u8>,
    nonce: Seq<u8>,
    aad: Seq<u8>,
    ct: Seq<u8>,
    tag: Seq<u8>,
) -> Option<Seq<u8>> {
    match alg {
        AeadAlg::AesGcm128 => aes128_gcm_open(key, nonce, aad, ct, tag),
        AeadAlg::AesGcm256 => aes256_gcm_open(key, nonce, aad, ct, tag),
        AeadAlg::ChaCha20Poly1305 => chacha20_poly1305_open(key, nonce, aad, ct, tag),
    }
}

fn aead_seal(alg: AeadAlg, key: &Vec<u8>, nonce: &Vec<u8>, aad: &Vec<u8>, pt: &Vec<u8>) -> (r: (
    Vec<u8>,
    Vec<u8>,
))
    requires
        key@.len() == alg.spec_key_len(),
        nonce@.len() == 12,
        pt@.len() <= 0xFFFF_FFFF,
        aad@.len() <= 0xFFFF_FFFF,
    ensures
        r.0@ == spec_aead_ct(alg, key@, nonce@, aad@, pt@),
        r.1@ == spec_aead_tag(alg, key@, nonce@, aad@, pt@),
        r.0@.len() == pt@.len(),
        r.1@.len() == 16,
        spec_aead_open(alg, key@, nonce@, aad@, r.0@, r.1@) == Some(pt@),
{
    match alg {
        AeadAlg::AesGcm128 => aes128_seal(key, nonce, aad, pt),
        AeadAlg::AesGcm256 => aes256_seal(key, nonce, aad, pt),
        AeadAlg::ChaCha20Poly1305 => chacha20_seal(key, nonce, aad, pt),
    }
}

fn aead_open(
    alg: AeadAlg,
    key: &Vec<u8>,
    nonce: &Vec<u8>,
    aad: &Vec<u8>,
    ct: &Vec<u8>,
    tag: &Vec<u8>,
) -> (r: Result<Vec<u8>, HpkeError>)
    requires
        key@.len() == alg.spec_key_len(),
        nonce@.len() == 12,
        ct@.len() <= 0xFFFF_FFFF,
        aad@.len() <= 0xFFFF_FFFF,
        tag@.len() == 16,
    ensures
        r is Ok <==> spec_aead_open(alg, key@, nonce@, aad@, ct@, tag@) is Some,
        r matches Ok(pt) ==> spec_aead_open(alg, key@, nonce@, aad@, ct@, tag@) == Some(pt@)
            && pt@.len() == ct@.len(),
        r matches Err(e) ==> e == HpkeError::Open,
{
    match alg {
        AeadAlg::AesGcm128 => aes128_open(key, nonce, aad, ct, tag),
        AeadAlg::AesGcm256 => aes256_open(key, nonce, aad, ct, tag),
        AeadAlg::ChaCha20Poly1305 => chacha20_open(key, nonce, aad, ct, tag),
    }
}

/// The sequence number as a 12-byte block: four zero bytes, then the
/// number big-endian.
pub open spec fn spec_seq_block(n: u64) -> Seq<u8> {
    seq![
        0u8,
        0u8,
        0u8,
        0u8,
        (n >> 56) as u8,
        (n >> 48) as u8,
        (n >> 40) as u8,
        (n >> 32) as u8,
        (n >> 24) as u8,
        (n >> 16) as u8,
        (n >> 8) as u8,
        n as u8,
    ]
}

/// The per-message nonce: the context's base nonce XORed with the
/// sequence-number block.
pub open spec fn spec_nonce_for(base: Seq<u8>, n: u64) -> Seq<u8> {
    Seq::new(12, |i: int| base[i] ^ spec_seq_block(n)[i])
}

fn seq_block(n: u64) -> (r: Vec<u8>)
    ensures
        r@ == spec_seq_block(n),
{
    let mut v: Vec<u8> = Vec::new();
    v.push(0u8);
    v.push(0u8);
    v.push(0u8);
    v.push(0u8);
    v.push((n >> 56) as u8);
    v.push((n >> 48) as u8);
    v.push((n >> 40) as u8);
    v.push((n >> 32) as u8);
    v.push((n >> 24) as u8);
    v.push((n >> 16) as u8);
    v.push((n >> 8) as u8);
    v.push(n as u8);
    proof {
        assert(v@ =~= spec_seq_block(n));
    }
    v
}

fn nonce_for(base: &Vec<u8>, n: u64) -> (r: Vec<u8>)
    requires
        base@.len() == 12,
    ensures
        r@ == spec_nonce_for(base@, n),
        r@.len() == 12,
{
    let block = seq_block(n);
    let mut v: Vec<u8> = Vec::new();
    let mut i: usize = 0;
    while i < 12
        invariant
            i <= 12,
            base@.len() == 12,
            block@ == spec_seq_block(n),
            v@.len() == i,
            forall|j: int| 0 <= j < i ==> v@[j] == (base@[j] ^ spec_seq_block(n)[j]),
        decreases 12 - i,
    {
        v.push(base[i] ^ block[i]);
        i = i + 1;
    }
    proof {
        assert(v@ =~= spec_nonce_for(base@, n));
    }
    v
}

/// A type-erased encryption context: the key material the key schedule
/// derived, the cipher it is for, and the sequence number of the next
/// message. `seal` and `open` each advance the sequence number exactly
/// once per success and fail once the sequence space is exhausted.
pub struct AgileAeadCtx {
    pub aead_alg: AeadAlg,
    pub key: Vec<u8>,
    pub base_nonce: Vec<u8>,
    pub seq: u64,
}

impl AgileAeadCtx {
    /// The context's key has the cipher's key length and its base nonce is
    /// one nonce block.
    pub open spec fn wf(self) -> bool {
        self.key@.len() == self.aead_alg.spec_key_len() && self.base_nonce@.len() == 12
    }

    /// Seals a plaintext under the associated data, at the context's
    /// current sequence number, returning the ciphertext and the detached
    /// tag. The sealed pair opens back to exactly this plaintext under the
    /// same key, nonce and associated data.
    pub fn seal(&mut self, plaintext: &Vec<u8>, aad: &Vec<u8>) -> (r: Result<
        (Vec<u8>, Vec<u8>),
        HpkeError,
    >)
        requires
            old(self).wf(),
        ensures
            final(self).wf(),
            final(self).aead_alg == old(self).aead_alg,
            final(self).key@ == old(self).key@,
            final(self).base_nonce@ == old(self).base_nonce@,
            r is Ok <==> old(self).seq < u64::MAX && plaintext@.len() <= 0xFFFF_FFFF
                && aad@.len() <= 0xFFFF_FFFF,
            r is Ok ==> final(self).seq == old(self).seq + 1,
            r is Err ==> final(self).seq == old(self).seq,
            r matches Ok((ct, tag)) ==> ({
                let nonce = spec_nonce_for(old(self).base_nonce@, old(self).seq);
                ct@ == spec_aead_ct(old(self).aead_alg, old(self).key@, nonce, aad@, plaintext@)
                    && tag@ == spec_aead_tag(
                    old(self).aead_alg,
                    old(self).key@,
                    nonce,
                    aad@,
                    plaintext@,
                ) && ct@.len() == plaintext@.len() && tag@.len() == 16 && spec_aead_open(
                    old(self).aead_alg,
                    old(self).key@,
                    nonce,
                    aad@,
                    ct@,
                    tag@,
                ) == Some(plaintext@)
            }),
            r matches Err(e) ==> e == (if old(self).seq == u64::MAX {
                HpkeError::SequenceExhausted
            } else {
                HpkeError::Seal
            }),
    {
        if self.seq == u64::MAX {
            return Err(HpkeError::SequenceExhausted);
        }
        if plaintext.len() > 0xFFFF_FFFF || aad.len() > 0xFFFF_FFFF {
            return Err(HpkeError::Seal);
        }
        let nonce = nonce_for(&self.base_nonce, self.seq);
        let (ct, tag) = aead_seal(self.aead_alg, &self.key, &nonce, aad, plaintext);
        self.seq = self.seq + 1;
        Ok((ct, tag))
    }

    /// Opens a ciphertext and detached tag under the associated data, at
    /// the context's current sequence number. Succeeds exactly when the
    /// cipher authenticates the pair, returning the plaintext it sealed;
    /// the sequence number advances only on success.
    pub fn open(&mut self, ciphertext: &Vec<u8>, aad: &Vec<u8>, tag_bytes: &Vec<u8>) -> (r: Result<
        Vec<u8>,
        HpkeError,
    >)
        requires
            old(self).wf(),
        ensures
            final(self).wf(),
            final(self).aead_alg == old(self).aead_alg,
            final(self).key@ == old(self).key@,
            final(self).base_nonce@ == old(self).base_nonce@,
            r is Ok <==> old(self).seq < u64::MAX && ciphertext@.len() <= 0xFFFF_FFFF
                && aad@.len() <= 0xFFFF_FFFF && tag_bytes@.len() == 16 && spec_aead_open(
                old(self).aead_alg,
                old(self).key@,
                spec_nonce_for(old(self).base_nonce@, old(self).seq),
                aad@,
                ciphertext@,
                tag_bytes@,
            ) is Some,
            r is Ok ==> final(self).seq == old(self).seq + 1,
            r is Err ==> final(self).seq == old(self).seq,
            r matches Ok(pt) ==> spec_aead_open(
                old(self).aead_alg,
                old(self).key@,
                spec_nonce_for(old(self).base_nonce@, old(self).seq),
                aad@,
                ciphertext@,
                tag_bytes@,
            ) == Some(pt@) && pt@.len() == ciphertext@.len(),
            r matches Err(e) ==> e == (if old(self).seq == u64::MAX {
                HpkeError::SequenceExhausted
            } else {
                HpkeError::Open
            }),
    {
        if self.seq == u64::MAX {
            return Err(HpkeError::SequenceExhausted);
        }
        if ciphertext.len() > 0xFFFF_FFFF || aad.len() > 0xFFFF_FFFF || tag_bytes.len() != 16 {
            return Err(HpkeError::Open);
        }
        let nonce = nonce_for(&self.base_nonce, self.seq);
        match aead_open(self.aead_alg, &self.key, &nonce, aad, ciphertext, tag_bytes) {
            Ok(pt) => {
                self.seq = self.seq + 1;
                Ok(pt)
            },
            Err(e) => Err(e),
        }
    }
}

} // verus!
