use vstd::prelude::*;

verus! {

use crate::algs::KdfAlg;
use crate::bytes::{push_bytes, spec_zero_bytes, zero_bytes};
use crate::err::HpkeError;

/// Represents key-derivation functionality: a type-level tag for one entry
/// of the KDF registry.
pub trait Kdf {
    /// The registry entry this implementation realizes.
    spec fn spec_alg() -> KdfAlg;

    fn alg() -> (r: KdfAlg)
        ensures
            r == Self::spec_alg(),
    ;

    /// The algorithm identifier for a KDF implementation.
    fn kdf_id() -> (r: u16)
        ensures
            r == Self::spec_alg().spec_to_wire_id(),
    ;
}

/// The implementation of HKDF-SHA256.
pub struct HkdfSha256 {}

impl Kdf for HkdfSha256 {
    open spec fn spec_alg() -> KdfAlg {
        KdfAlg::HkdfSha256
    }

    fn alg() -> (r: KdfAlg) {
        KdfAlg::HkdfSha256
    }

    fn kdf_id() -> (r: u16) {
        0x0001
    }
}

/// The implementation of HKDF-SHA384.
pub struct HkdfSha384 {}

impl Kdf for HkdfSha384 {
    open spec fn spec_alg() -> KdfAlg {
        KdfAlg::HkdfSha384
    }

    fn alg() -> (r: KdfAlg) {
        KdfAlg::HkdfSha384
    }

    fn kdf_id() -> (r: u16) {
        0x0002
    }
}

/// The implementation of HKDF-SHA512.
pub struct HkdfSha512 {}

impl Kdf for HkdfSha512 {
    open spec fn spec_alg() -> KdfAlg {
        KdfAlg::HkdfSha512
    }

    fn alg() -> (r: KdfAlg) {
        KdfAlg::HkdfSha512
    }

    fn kdf_id() -> (r: u16) {
        0x0003
    }
}

/// What RFC 5869 HKDF-Extract with SHA-256 returns for a salt and input
/// keying material.
pub uninterp spec fn hkdf_extract_sha256(salt: Seq<u8>, ikm: Seq<u8>) -> Seq<u8>;

/// What RFC 5869 HKDF-Extract with SHA-384 returns.
pub uninterp spec fn hkdf_extract_sha384(salt: Seq<u8>, ikm: Seq<u8>) -> Seq<u8>;

/// What RFC 5869 HKDF-Extract with SHA-512 returns.
pub uninterp spec fn hkdf_extract_sha512(salt: Seq<u8>, ikm: Seq<u8>) -> Seq<u8>;

/// What RFC 5869 HKDF-Expand with SHA-256 returns for a pseudorandom key,
/// an info string and an output length.
pub uninterp spec fn hkdf_expand_sha256(prk: Seq<u8>, info: Seq<u8>, out_len: nat) -> Seq<u8>;

/// What RFC 5869 HKDF-Expand with SHA-384 returns.
pub uninterp spec fn hkdf_expand_sha384(prk: Seq<u8>, info: Seq<u8>, out_len: nat) -> Seq<u8>;

/// What RFC 5869 HKDF-Expand with SHA-512 returns.
pub uninterp spec fn hkdf_expand_sha512(prk: Seq<u8>, info: Seq<u8>, out_len: nat) -> Seq<u8>;

/// Relies on hkdf::Hkdf::<sha2::Sha256>::extract: HKDF-Extract is a total,
/// deterministic function of salt and IKM whose output is one digest block.
#[verifier::external_body]
fn extract_sha256(salt: &Vec<u8>, ikm: &Vec<u8>) -> (r: Vec<u8>)
    ensures
        r@ == hkdf_extract_sha256(salt@, ikm@),
        r@.len() == 32,
{
    let (prk, _) = hkdf::Hkdf::<sha2::Sha256>::extract(Some(salt.as_slice()), ikm.as_slice());
    prk.to_vec()
}

/// Relies on hkdf::Hkdf::<sha2::Sha384>::extract, as `extract_sha256` does.
#[verifier::external_body]
fn extract_sha384(salt: &Vec<u8>, ikm: &Vec<u8>) -> (r: Vec<u8>)
    ensures
        r@ == hkdf_extract_sha384(salt@, ikm@),
        r@.len() == 48,
{
    let (prk, _) = hkdf::Hkdf::<sha2::Sha384>::extract(Some(salt.as_slice()), ikm.as_slice());
    prk.to_vec()
}

/// Relies on hkdf::Hkdf::<sha2::Sha512>::extract, as `extract_sha256` does.
#[verifier::external_body]
fn extract_sha512(salt: &Vec<u8>, ikm: &Vec<u8>) -> (r: Vec<u8>)
    ensures
        r@ == hkdf_extract_sha512(salt@, ikm@),
        r@.len() == 64,
{
    let (prk, _) = hkdf::Hkdf::<sha2::Sha512>::extract(Some(salt.as_slice()), ikm.as_slice());
    prk.to_vec()
}

/// Relies on hkdf::Hkdf::<sha2::Sha256>::from_prk and Hkdf::expand:
/// HKDF-Expand is a deterministic function of PRK, info and length, defined
/// exactly for lengths of at most 255 digest blocks; from_prk accepts any
/// PRK of at least one digest block.
#[verifier::external_body]
fn expand_sha256(prk: &Vec<u8>, info: &Vec<u8>, out_len: usize) -> (r: Result<Vec<u8>, HpkeError>)
    requires
        prk@.len() == 32,
    ensures
        r is Ok <==> out_len <= 255 * 32,
        r matches Ok(okm) ==> okm@ == hkdf_expand_sha256(prk@, info@, out_len as nat)
            && okm@.len() == out_len,
        r matches Err(e) ==> e == HpkeError::KdfInvalidLength,
{
    let hk = match hkdf::Hkdf::<sha2::Sha256>::from_prk(prk.as_slice()) {
        Ok(h) => h,
        Err(_) => return Err(HpkeError::KdfInvalidLength),
    };
    let mut okm = vec![0u8; out_len];
    match hk.expand(info.as_slice(), &mut okm) {
        Ok(()) => Ok(okm),
        Err(_) => Err(HpkeError::KdfInvalidLength),
    }
}

/// Relies on hkdf::Hkdf::<sha2::Sha384>::from_prk and Hkdf::expand, as
/// `expand_sha256` does.
#[verifier::external_body]
fn expand_sha384(prk: &Vec<u8>, info: &Vec<u8>, out_len: usize) -> (r: Result<Vec<u8>, HpkeError>)
    requires
        prk@.len() == 48,
    ensures
        r is Ok <==> out_len <= 255 * 48,
        r matches Ok(okm) ==> okm@ == hkdf_expand_sha384(prk@, info@, out_len as nat)
            && okm@.len() == out_len,
        r matches Err(e) ==> e == HpkeError::KdfInvalidLength,
{
    let hk = match hkdf::Hkdf::<sha2::Sha384>::from_prk(prk.as_slice()) {
        Ok(h) => h,
        Err(_) => return Err(HpkeError::KdfInvalidLength),
    };
    let mut okm = vec![0u8; out_len];
    match hk.expand(info.as_slice(), &mut okm) {
        Ok(()) => Ok(okm),
        Err(_) => Err(HpkeError::KdfInvalidLength),
    }
}

/// Relies on hkdf::Hkdf::<sha2::Sha512>::from_prk and Hkdf::expand, as
/// `expand_sha256` does.
#[verifier::external_body]
fn expand_sha512(prk: &Vec<u8>, info: &Vec<u8>, out_len: usize) -> (r: Result<Vec<u8>, HpkeError>)
    requires
        prk@.len() == 64,
    ensures
        r is Ok <==> out_len <= 255 * 64,
        r matches Ok(okm) ==> okm@ == hkdf_expand_sha512(prk@, info@, out_len as nat)
            && okm@.len() == out_len,
        r matches Err(e) ==> e == HpkeError::KdfInvalidLength,
{
    let hk = match hkdf::Hkdf::<sha2::Sha512>::from_prk(prk.as_slice()) {
        Ok(h) => h,
        Err(_) => return Err(HpkeError::KdfInvalidLength),
    };
    let mut okm = vec![0u8; out_len];
    match hk.expand(info.as_slice(), &mut okm) {
        Ok(()) => Ok(okm),
        Err(_) => Err(HpkeError::KdfInvalidLength),
    }
}

/// HKDF-Extract under a registry-selected digest.
pub open spec fn spec_hkdf_extract(alg: KdfAlg, salt: Seq<u8>, ikm: Seq<u8>) -> Seq<u8> {
    match alg {
        KdfAlg::HkdfSha256 => hkdf_extract_sha256(salt, ikm),
        KdfAlg::HkdfSha384 => hkdf_extract_sha384(salt, ikm),
        KdfAlg::HkdfSha512 => hkdf_extract_sha512(salt, ikm),
    }
}

/// HKDF-Expand under a registry-selected digest.
pub open spec fn spec_hkdf_expand(alg: KdfAlg, prk: Seq<u8>, info: Seq<u8>, out_len: nat) -> Seq<
    u8,
> {
    match alg {
        KdfAlg::HkdfSha256 => hkdf_expand_sha256(prk, info, out_len),
        KdfAlg::HkdfSha384 => hkdf_expand_sha384(prk, info, out_len),
        KdfAlg::HkdfSha512 => hkdf_expand_sha512(prk, info, out_len),
    }
}

fn hkdf_extract(alg: KdfAlg, salt: &Vec<u8>, ikm: &Vec<u8>) -> (r: Vec<u8>)
    ensures
        r@ == spec_hkdf_extract(alg, salt@, ikm@),
        r@.len() == alg.spec_digest_len(),
{
    match alg {
        KdfAlg::HkdfSha256 => extract_sha256(salt, ikm),
        KdfAlg::HkdfSha384 => extract_sha384(salt, ikm),
        KdfAlg::HkdfSha512 => extract_sha512(salt, ikm),
    }
}

fn hkdf_expand(alg: KdfAlg, prk: &Vec<u8>, info: &Vec<u8>, out_len: usize) -> (r: Result<
    Vec<u8>,
    HpkeError,
>)
    requires
        prk@.len() == alg.spec_digest_len(),
    ensures
        r is Ok <==> out_len <= 255 * alg.spec_digest_len(),
        r matches Ok(okm) ==> okm@ == spec_hkdf_expand(alg, prk@, info@, out_len as nat)
            && okm@.len() == out_len,
        r matches Err(e) ==> e == HpkeError::KdfInvalidLength,
{
    match alg {
        KdfAlg::HkdfSha256 => expand_sha256(prk, info, out_len),
        KdfAlg::HkdfSha384 => expand_sha384(prk, info, out_len),
        KdfAlg::HkdfSha512 => expand_sha512(prk, info, out_len),
    }
}

/// The fixed protocol-version tag mixed into every labeled derivation.
/// The trailing space separates the tag from the label.
pub open spec fn spec_rfc_label() -> Seq<u8> {
    seq![82u8, 70u8, 67u8, 88u8, 88u8, 88u8, 88u8, 32u8]
}

/// The bytes of `"RFCXXXX "`.
fn rfc_label() -> (r: Vec<u8>)
    ensures
        r@ == spec_rfc_label(),
{
    let mut v: Vec<u8> = Vec::new();
    v.push(82u8);
    v.push(70u8);
    v.push(67u8);
    v.push(88u8);
    v.push(88u8);
    v.push(88u8);
    v.push(88u8);
    v.push(32u8);
    proof {
        assert(v@ =~= spec_rfc_label());
    }
    v
}

/// An output length encoded as a 2-byte big-endian integer.
pub open spec fn spec_be16(n: nat) -> Seq<u8> {
    seq![(n / 256) as u8, (n % 256) as u8]
}

fn be16(n: usize) -> (r: Vec<u8>)
    requires
        n <= 0xFFFF,
    ensures
        r@ == spec_be16(n as nat),
{
    let mut v: Vec<u8> = Vec::new();
    v.push((n / 256) as u8);
    v.push((n % 256) as u8);
    proof {
        assert(v@ =~= spec_be16(n as nat));
    }
    v
}

/// The labeled IKM fed to HKDF-Extract: the protocol tag, then the label,
/// then the caller's IKM, in exactly that order.
pub open spec fn spec_labeled_ikm(label: Seq<u8>, ikm: Seq<u8>) -> Seq<u8> {
    spec_rfc_label() + label + ikm
}

/// What `labeled_extract` derives: HKDF-Extract over the labeled IKM.
pub open spec fn spec_labeled_extract(alg: KdfAlg, salt: Seq<u8>, label: Seq<u8>, ikm: Seq<u8>) -> Seq<u8> {
    spec_hkdf_extract(alg, salt, spec_labeled_ikm(label, ikm))
}

/// The labeled info string fed to HKDF-Expand: the output length as two
/// big-endian bytes, the protocol tag, the label, then the caller's info.
pub open spec fn spec_labeled_info(out_len: nat, label: Seq<u8>, info: Seq<u8>) -> Seq<u8> {
    spec_be16(out_len) + spec_rfc_label() + label + info
}

/// What `labeled_expand` derives: HKDF-Expand over the labeled info string.
pub open spec fn spec_labeled_expand(
    alg: KdfAlg,
    prk: Seq<u8>,
    label: Seq<u8>,
    info: Seq<u8>,
    out_len: nat,
) -> Seq<u8> {
    spec_hkdf_expand(alg, prk, spec_labeled_info(out_len, label, info), out_len)
}

/// What `extract_and_expand` derives: extract with an all-zero salt of one
/// digest block, then expand with the caller's info string.
pub open spec fn spec_extract_and_expand(alg: KdfAlg, ikm: Seq<u8>, info: Seq<u8>, out_len: nat) -> Seq<u8> {
    spec_hkdf_expand(
        alg,
        spec_hkdf_extract(alg, spec_zero_bytes(alg.spec_digest_len()), ikm),
        info,
        out_len,
    )
}

/// Returns the pseudorandom key extracted from
/// `(salt, "RFCXXXX " || label || ikm)`; byte-exact concatenation order
/// matters for interoperability.
pub fn labeled_extract(alg: KdfAlg, salt: &Vec<u8>, label: &Vec<u8>, ikm: &Vec<u8>) -> (r: Vec<u8>)
    ensures
        r@ == spec_labeled_extract(alg, salt@, label@, ikm@),
        r@.len() == alg.spec_digest_len(),
{
    let mut labeled_ikm = rfc_label();
    push_bytes(&mut labeled_ikm, label);
    push_bytes(&mut labeled_ikm, ikm);
    hkdf_extract(alg, salt, &labeled_ikm)
}

/// Expands `prk` into `out_len` bytes using the info string
/// `be16(out_len) || "RFCXXXX " || label || info`. Fails exactly when
/// `out_len` cannot be represented in 2 bytes or exceeds the digest's
/// expansion limit of 255 blocks.
pub fn labeled_expand(
    alg: KdfAlg,
    prk: &Vec<u8>,
    label: &Vec<u8>,
    info: &Vec<u8>,
    out_len: usize,
) -> (r: Result<Vec<u8>, HpkeError>)
    requires
        prk@.len() == alg.spec_digest_len(),
    ensures
        r is Ok <==> out_len <= 0xFFFF && out_len <= 255 * alg.spec_digest_len(),
        r matches Ok(okm) ==> okm@ == spec_labeled_expand(alg, prk@, label@, info@, out_len as nat)
            && okm@.len() == out_len,
        r matches Err(e) ==> e == HpkeError::KdfInvalidLength,
{
    if out_len > 0xFFFF {
        return Err(HpkeError::KdfInvalidLength);
    }
    let mut labeled_info = be16(out_len);
    push_bytes(&mut labeled_info, &rfc_label());
    push_bytes(&mut labeled_info, label);
    push_bytes(&mut labeled_info, info);
    hkdf_expand(alg, prk, &labeled_info, out_len)
}

/// Labeled expansion is deterministic: any two results derived with
/// identical PRK, label, info and length are identical.
pub proof fn lemma_labeled_expand_deterministic(
    alg: KdfAlg,
    prk: Seq<u8>,
    label: Seq<u8>,
    info: Seq<u8>,
    out_len: nat,
    r1: Seq<u8>,
    r2: Seq<u8>,
)
    requires
        r1 == spec_labeled_expand(alg, prk, label, info, out_len),
        r2 == spec_labeled_expand(alg, prk, label, info, out_len),
    ensures
        r1 == r2,
{
}

/// Uses the given IKM to extract a secret under an all-zero salt of one
/// digest block, then expands with the given info string to `out_len`
/// bytes. Fails exactly when `out_len` exceeds the digest's expansion
/// limit.
pub fn extract_and_expand(alg: KdfAlg, ikm: &Vec<u8>, info: &Vec<u8>, out_len: usize) -> (r: Result<
    Vec<u8>,
    HpkeError,
>)
    ensures
        r is Ok <==> out_len <= 255 * alg.spec_digest_len(),
        r matches Ok(okm) ==> okm@ == spec_extract_and_expand(alg, ikm@, info@, out_len as nat)
            && okm@.len() == out_len,
        r matches Err(e) ==> e == HpkeError::KdfInvalidLength,
{
    let salt = zero_bytes(alg.get_digest_len());
    let prk = hkdf_extract(alg, &salt, ikm);
    hkdf_expand(alg, &prk, info, out_len)
}

} // verus!
