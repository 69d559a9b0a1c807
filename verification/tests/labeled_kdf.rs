use hpke_kdf::kdf::{extract_and_expand, labeled_expand, labeled_extract};
use hpke_kdf::kdf::{HkdfSha256, HkdfSha384, HkdfSha512, Kdf, KdfError};

fn framed_ikm(suite_id: &[u8], label: &[u8], ikm: &[u8]) -> Vec<u8> {
    let mut v = Vec::new();
    v.extend_from_slice(b"HPKE-v1");
    v.extend_from_slice(suite_id);
    v.extend_from_slice(label);
    v.extend_from_slice(ikm);
    v
}

fn framed_info(out_len: usize, suite_id: &[u8], label: &[u8], info: &[u8]) -> Vec<u8> {
    let mut v = Vec::new();
    v.push((out_len / 256) as u8);
    v.push((out_len % 256) as u8);
    v.extend_from_slice(b"HPKE-v1");
    v.extend_from_slice(suite_id);
    v.extend_from_slice(label);
    v.extend_from_slice(info);
    v
}

const SALT: &[u8] = &[
    0x00, 0x01, 0x02, 0x03, 0x04, 0x05, 0x06, 0x07, 0x08, 0x09, 0x0a, 0x0b, 0x0c,
];
const SUITE_ID: &[u8] = &[0x4b, 0x45, 0x4d, 0x00, 0x20];
const IKM: &[u8] = &[
    0x0b, 0x0b, 0x0b, 0x0b, 0x0b, 0x0b, 0x0b, 0x0b, 0x0b, 0x0b, 0x0b, 0x0b, 0x0b, 0x0b, 0x0b,
    0x0b, 0x0b, 0x0b, 0x0b, 0x0b, 0x0b, 0x0b,
];
const INFO: &[u8] = &[
    0xf0, 0xf1, 0xf2, 0xf3, 0xf4, 0xf5, 0xf6, 0xf7, 0xf8, 0xf9,
];

#[test]
fn registry_ids_are_stable() {
    assert_eq!(HkdfSha256::kdf_id(), 0x0001);
    assert_eq!(HkdfSha384::kdf_id(), 0x0002);
    assert_eq!(HkdfSha512::kdf_id(), 0x0003);
}

#[test]
fn hash_output_sizes() {
    assert_eq!(HkdfSha256::nh(), 32);
    assert_eq!(HkdfSha384::nh(), 48);
    assert_eq!(HkdfSha512::nh(), 64);
}

#[test]
fn labeled_extract_matches_direct_hkdf_sha256() {
    let prk = labeled_extract::<HkdfSha256>(SALT, SUITE_ID, b"eae_prk", IKM);
    let framed = framed_ikm(SUITE_ID, b"eae_prk", IKM);
    let (expected, _) = hkdf::Hkdf::<sha2::Sha256>::extract(Some(SALT), &framed);
    assert_eq!(prk.as_slice(), expected.as_slice());
    assert_eq!(prk.len(), 32);
}

#[test]
fn labeled_extract_matches_direct_hkdf_sha384() {
    let prk = labeled_extract::<HkdfSha384>(SALT, SUITE_ID, b"eae_prk", IKM);
    let framed = framed_ikm(SUITE_ID, b"eae_prk", IKM);
    let (expected, _) = hkdf::Hkdf::<sha2::Sha384>::extract(Some(SALT), &framed);
    assert_eq!(prk.as_slice(), expected.as_slice());
    assert_eq!(prk.len(), 48);
}

#[test]
fn labeled_extract_matches_direct_hkdf_sha512() {
    let prk = labeled_extract::<HkdfSha512>(SALT, SUITE_ID, b"eae_prk", IKM);
    let framed = framed_ikm(SUITE_ID, b"eae_prk", IKM);
    let (expected, _) = hkdf::Hkdf::<sha2::Sha512>::extract(Some(SALT), &framed);
    assert_eq!(prk.as_slice(), expected.as_slice());
    assert_eq!(prk.len(), 64);
}

#[test]
fn labeled_expand_matches_direct_hkdf_sha256() {
    let prk = labeled_extract::<HkdfSha256>(SALT, SUITE_ID, b"eae_prk", IKM);
    let okm = labeled_expand::<HkdfSha256>(&prk, SUITE_ID, b"shared_secret", INFO, 42).unwrap();
    let framed = framed_info(42, SUITE_ID, b"shared_secret", INFO);
    let hk = hkdf::Hkdf::<sha2::Sha256>::from_prk(&prk).unwrap();
    let mut expected = vec![0u8; 42];
    hk.expand(&framed, &mut expected).unwrap();
    assert_eq!(okm, expected);
}

#[test]
fn labeled_expand_matches_direct_hkdf_sha384() {
    let prk = labeled_extract::<HkdfSha384>(SALT, SUITE_ID, b"eae_prk", IKM);
    let okm = labeled_expand::<HkdfSha384>(&prk, SUITE_ID, b"shared_secret", INFO, 100).unwrap();
    let framed = framed_info(100, SUITE_ID, b"shared_secret", INFO);
    let hk = hkdf::Hkdf::<sha2::Sha384>::from_prk(&prk).unwrap();
    let mut expected = vec![0u8; 100];
    hk.expand(&framed, &mut expected).unwrap();
    assert_eq!(okm, expected);
}

#[test]
fn labeled_expand_matches_direct_hkdf_sha512() {
    let prk = labeled_extract::<HkdfSha512>(SALT, SUITE_ID, b"eae_prk", IKM);
    let okm = labeled_expand::<HkdfSha512>(&prk, SUITE_ID, b"shared_secret", INFO, 64).unwrap();
    let framed = framed_info(64, SUITE_ID, b"shared_secret", INFO);
    let hk = hkdf::Hkdf::<sha2::Sha512>::from_prk(&prk).unwrap();
    let mut expected = vec![0u8; 64];
    hk.expand(&framed, &mut expected).unwrap();
    assert_eq!(okm, expected);
}

#[test]
fn extract_is_deterministic() {
    let prk1 = labeled_extract::<HkdfSha256>(SALT, SUITE_ID, b"eae_prk", IKM);
    let prk2 = labeled_extract::<HkdfSha256>(SALT, SUITE_ID, b"eae_prk", IKM);
    assert_eq!(prk1, prk2);
}

#[test]
fn distinct_labels_separate_domains() {
    let prk1 = labeled_extract::<HkdfSha256>(SALT, SUITE_ID, b"eae_prk", IKM);
    let prk2 = labeled_extract::<HkdfSha256>(SALT, SUITE_ID, b"psk_hash", IKM);
    assert_ne!(prk1, prk2);
}

#[test]
fn expand_returns_exactly_the_requested_length() {
    let prk = labeled_extract::<HkdfSha256>(SALT, SUITE_ID, b"eae_prk", IKM);
    for n in [0usize, 1, 31, 32, 33, 255, 8160] {
        let okm = labeled_expand::<HkdfSha256>(&prk, SUITE_ID, b"key", INFO, n).unwrap();
        assert_eq!(okm.len(), n);
    }
}

#[test]
fn expand_rejects_lengths_beyond_the_primitive_bound() {
    let prk = labeled_extract::<HkdfSha256>(&[], SUITE_ID, b"eae_prk", IKM);
    let r = labeled_expand::<HkdfSha256>(&prk, SUITE_ID, b"key", INFO, 8161);
    assert_eq!(r, Err(KdfError::InvalidLength));
    // 65535 exceeds 255 blocks for every supported hash.
    let prk512 = labeled_extract::<HkdfSha512>(&[], SUITE_ID, b"eae_prk", IKM);
    let r512 = labeled_expand::<HkdfSha512>(&prk512, SUITE_ID, b"key", INFO, 65535);
    assert_eq!(r512, Err(KdfError::InvalidLength));
}

#[test]
fn expand_accepts_the_largest_block_count() {
    let prk = labeled_extract::<HkdfSha512>(&[], SUITE_ID, b"eae_prk", IKM);
    let okm = labeled_expand::<HkdfSha512>(&prk, SUITE_ID, b"key", INFO, 16320).unwrap();
    assert_eq!(okm.len(), 16320);
}

#[test]
fn extract_and_expand_composes_the_two_steps() {
    let mut out = vec![0u8; 32];
    extract_and_expand::<HkdfSha256>(IKM, SUITE_ID, INFO, &mut out).unwrap();

    let framed = framed_ikm(SUITE_ID, b"eae_prk", IKM);
    let (prk, _) = hkdf::Hkdf::<sha2::Sha256>::extract(Some(&[]), &framed);
    let hk = hkdf::Hkdf::<sha2::Sha256>::from_prk(&prk).unwrap();
    let framed_i = framed_info(32, SUITE_ID, b"shared_secret", INFO);
    let mut expected = vec![0u8; 32];
    hk.expand(&framed_i, &mut expected).unwrap();
    assert_eq!(out, expected);
}

#[test]
fn extract_and_expand_leaves_the_buffer_on_error() {
    let mut out = vec![0xaau8; 9000];
    let r = extract_and_expand::<HkdfSha256>(IKM, SUITE_ID, INFO, &mut out);
    assert_eq!(r, Err(KdfError::InvalidLength));
    assert!(out.iter().all(|&b| b == 0xaa));
    assert_eq!(out.len(), 9000);
}
