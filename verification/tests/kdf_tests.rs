use hpke_agility::algs::KdfAlg;
use hpke_agility::err::HpkeError;
use hpke_agility::kdf::{extract_and_expand, labeled_expand, labeled_extract};

#[test]
fn labeled_extract_output_length() {
    let salt = vec![1u8; 7];
    let label = b"dh".to_vec();
    let ikm = vec![2u8; 32];
    assert_eq!(labeled_extract(KdfAlg::HkdfSha256, &salt, &label, &ikm).len(), 32);
    assert_eq!(labeled_extract(KdfAlg::HkdfSha384, &salt, &label, &ikm).len(), 48);
    assert_eq!(labeled_extract(KdfAlg::HkdfSha512, &salt, &label, &ikm).len(), 64);
}

#[test]
fn labeled_extract_not_identity() {
    // A wrapper that handed any of its arguments back unchanged would fail
    // here: the output has the digest's length and equals none of them.
    let salt = vec![3u8; 32];
    let label = vec![4u8; 32];
    let ikm = vec![5u8; 32];
    let prk = labeled_extract(KdfAlg::HkdfSha256, &salt, &label, &ikm);
    assert_eq!(prk.len(), 32);
    assert_ne!(prk, salt);
    assert_ne!(prk, label);
    assert_ne!(prk, ikm);
}

#[test]
fn labeled_expand_deterministic() {
    let prk = labeled_extract(KdfAlg::HkdfSha256, &vec![0u8; 32], &b"dh".to_vec(), &vec![9u8; 32]);
    let label = b"prk".to_vec();
    let info = b"kem context".to_vec();
    let a = labeled_expand(KdfAlg::HkdfSha256, &prk, &label, &info, 42).unwrap();
    let b = labeled_expand(KdfAlg::HkdfSha256, &prk, &label, &info, 42).unwrap();
    assert_eq!(a, b);
    assert_eq!(a.len(), 42);
}

#[test]
fn labeled_expand_varies_with_arguments() {
    let prk = labeled_extract(KdfAlg::HkdfSha256, &vec![0u8; 32], &b"dh".to_vec(), &vec![9u8; 32]);
    let base = labeled_expand(KdfAlg::HkdfSha256, &prk, &b"prk".to_vec(), &b"info".to_vec(), 32)
        .unwrap();
    let other_label = labeled_expand(
        KdfAlg::HkdfSha256,
        &prk,
        &b"qrk".to_vec(),
        &b"info".to_vec(),
        32,
    )
    .unwrap();
    let other_info = labeled_expand(
        KdfAlg::HkdfSha256,
        &prk,
        &b"prk".to_vec(),
        &b"infp".to_vec(),
        32,
    )
    .unwrap();
    let other_len = labeled_expand(KdfAlg::HkdfSha256, &prk, &b"prk".to_vec(), &b"info".to_vec(), 31)
        .unwrap();
    let other_prk = labeled_extract(
        KdfAlg::HkdfSha256,
        &vec![1u8; 32],
        &b"dh".to_vec(),
        &vec![9u8; 32],
    );
    let other_prk_out = labeled_expand(
        KdfAlg::HkdfSha256,
        &other_prk,
        &b"prk".to_vec(),
        &b"info".to_vec(),
        32,
    )
    .unwrap();
    assert_ne!(base, other_label);
    assert_ne!(base, other_info);
    assert_ne!(base[..31], other_len[..]);
    assert_ne!(base, other_prk_out);
    assert_ne!(base, prk);
}

#[test]
fn labeled_expand_length_boundary() {
    let prk = labeled_extract(KdfAlg::HkdfSha512, &vec![0u8; 8], &b"dh".to_vec(), &vec![9u8; 32]);
    // 65536 cannot be encoded in the 2-byte length prefix.
    assert_eq!(
        labeled_expand(KdfAlg::HkdfSha512, &prk, &b"x".to_vec(), &b"y".to_vec(), 65536),
        Err(HpkeError::KdfInvalidLength)
    );
    // 65535 fits the prefix but exceeds every digest's 255-block limit.
    assert_eq!(
        labeled_expand(KdfAlg::HkdfSha512, &prk, &b"x".to_vec(), &b"y".to_vec(), 65535),
        Err(HpkeError::KdfInvalidLength)
    );
    // The exact expansion limits: 255 blocks succeed, one byte more fails.
    let ok = labeled_expand(KdfAlg::HkdfSha512, &prk, &b"x".to_vec(), &b"y".to_vec(), 255 * 64)
        .unwrap();
    assert_eq!(ok.len(), 255 * 64);
    assert_eq!(
        labeled_expand(KdfAlg::HkdfSha512, &prk, &b"x".to_vec(), &b"y".to_vec(), 255 * 64 + 1),
        Err(HpkeError::KdfInvalidLength)
    );
    let prk256 = labeled_extract(KdfAlg::HkdfSha256, &vec![0u8; 8], &b"dh".to_vec(), &vec![9u8; 32]);
    let ok256 = labeled_expand(KdfAlg::HkdfSha256, &prk256, &b"x".to_vec(), &b"y".to_vec(), 255 * 32)
        .unwrap();
    assert_eq!(ok256.len(), 255 * 32);
    assert_eq!(
        labeled_expand(KdfAlg::HkdfSha256, &prk256, &b"x".to_vec(), &b"y".to_vec(), 255 * 32 + 1),
        Err(HpkeError::KdfInvalidLength)
    );
}

#[test]
fn extract_and_expand_limits() {
    let ikm = vec![7u8; 32];
    let info = b"kem context bytes".to_vec();
    let zz = extract_and_expand(KdfAlg::HkdfSha256, &ikm, &info, 32).unwrap();
    assert_eq!(zz.len(), 32);
    let again = extract_and_expand(KdfAlg::HkdfSha256, &ikm, &info, 32).unwrap();
    assert_eq!(zz, again);
    assert_eq!(
        extract_and_expand(KdfAlg::HkdfSha256, &ikm, &info, 255 * 32 + 1),
        Err(HpkeError::KdfInvalidLength)
    );
}
