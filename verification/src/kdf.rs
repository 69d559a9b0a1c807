//! Labeled HKDF extract and expand.
//!
//! Every derivation input is framed as
//! `"HPKE-v1" || suite_id || label || ikm` (extract) or
//! `I2OSP(out_len, 2) || "HPKE-v1" || suite_id || label || info` (expand),
//! and the framed bytes are handed to HKDF over the selected hash.

use vstd::prelude::*;

verus! {

/// The fixed 7-byte ASCII version label `"HPKE-v1"` that prefixes every
/// labeled derivation input.
pub open spec fn version_label() -> Seq<u8> {
    seq![0x48u8, 0x50u8, 0x4bu8, 0x45u8, 0x2du8, 0x76u8, 0x31u8]
}

/// The ASCII bytes of `"eae_prk"`, the label of the extract half of
/// `extract_and_expand`.
pub open spec fn eae_prk_label() -> Seq<u8> {
    seq![0x65u8, 0x61u8, 0x65u8, 0x5fu8, 0x70u8, 0x72u8, 0x6bu8]
}

/// The ASCII bytes of `"shared_secret"`, the label of the expand half of
/// `extract_and_expand`.
pub open spec fn shared_secret_label() -> Seq<u8> {
    seq![
        0x73u8, 0x68u8, 0x61u8, 0x72u8, 0x65u8, 0x64u8, 0x5fu8, 0x73u8, 0x65u8, 0x63u8, 0x72u8,
        0x65u8, 0x74u8,
    ]
}

/// Big-endian two-byte encoding of a length that fits 16 bits.
pub open spec fn i2osp2(n: int) -> Seq<u8> {
    seq![((n / 256) % 256) as u8, (n % 256) as u8]
}

/// The input keying material handed to HKDF-Extract by a labeled extract.
pub open spec fn labeled_ikm_bytes(suite_id: Seq<u8>, label: Seq<u8>, ikm: Seq<u8>) -> Seq<u8> {
    version_label() + suite_id + label + ikm
}

/// The info string handed to HKDF-Expand by a labeled expand.
pub open spec fn labeled_info_bytes(
    out_len: int,
    suite_id: Seq<u8>,
    label: Seq<u8>,
    info: Seq<u8>,
) -> Seq<u8> {
    i2osp2(out_len) + version_label() + suite_id + label + info
}

/// The pseudorandom key that HKDF-Extract over the hash named by `kdf_id`
/// returns for a salt and input keying material.  The result is a function
/// of the arguments alone; nothing beyond that is assumed of it here.
pub uninterp spec fn hkdf_extract(kdf_id: u16, salt: Seq<u8>, ikm: Seq<u8>) -> Seq<u8>;

/// The `out_len` bytes that HKDF-Expand over the hash named by `kdf_id`
/// returns for a pseudorandom key and info string.  The result is a
/// function of the arguments alone; nothing beyond that is assumed of it
/// here.
pub uninterp spec fn hkdf_expand(kdf_id: u16, prk: Seq<u8>, info: Seq<u8>, out_len: int) -> Seq<u8>;

#[verifier::external_type_specification]
#[verifier::external_body]
pub struct ExInvalidLength(hkdf::InvalidLength);

/// Relies on `hkdf::Hkdf::<Sha256>::extract`: HKDF-Extract over SHA-256,
/// a 32-byte pseudorandom key determined by the salt and the input keying
/// material.
#[verifier::external_body]
fn extract_sha256(salt: &[u8], ikm: &[u8]) -> (r: Vec<u8>)
    ensures
        r@ == hkdf_extract(0x0001, salt@, ikm@),
        r@.len() == 32,
{
    let (prk, _) = hkdf::Hkdf::<sha2::Sha256>::extract(Some(salt), ikm);
    prk.as_slice().to_vec()
}

/// Relies on `hkdf::Hkdf::<Sha384>::extract`: HKDF-Extract over SHA-384,
/// a 48-byte pseudorandom key determined by the salt and the input keying
/// material.
#[verifier::external_body]
fn extract_sha384(salt: &[u8], ikm: &[u8]) -> (r: Vec<u8>)
    ensures
        r@ == hkdf_extract(0x0002, salt@, ikm@),
        r@.len() == 48,
{
    let (prk, _) = hkdf::Hkdf::<sha2::Sha384>::extract(Some(salt), ikm);
    prk.as_slice().to_vec()
}

/// Relies on `hkdf::Hkdf::<Sha512>::extract`: HKDF-Extract over SHA-512,
/// a 64-byte pseudorandom key determined by the salt and the input keying
/// material.
#[verifier::external_body]
fn extract_sha512(salt: &[u8], ikm: &[u8]) -> (r: Vec<u8>)
    ensures
        r@ == hkdf_extract(0x0003, salt@, ikm@),
        r@.len() == 64,
{
    let (prk, _) = hkdf::Hkdf::<sha2::Sha512>::extract(Some(salt), ikm);
    prk.as_slice().to_vec()
}

/// Relies on `hkdf::Hkdf::<Sha256>::from_prk` (never fails for a 32-byte
/// key) and `hkdf::Hkdf::expand`: HKDF-Expand over SHA-256 fills exactly
/// `out_len` bytes determined by the key and the info string, and errors
/// precisely when `out_len` exceeds 255 hash blocks.
#[verifier::external_body]
fn expand_sha256(prk: &[u8], info: &[u8], out_len: usize) -> (r: Result<
    Vec<u8>,
    hkdf::InvalidLength,
>)
    requires
        prk@.len() == 32,
    ensures
        r is Ok <==> out_len <= 255 * 32,
        r is Ok ==> r->Ok_0@ == hkdf_expand(0x0001, prk@, info@, out_len as int)
            && r->Ok_0@.len() == out_len,
{
    let hk = hkdf::Hkdf::<sha2::Sha256>::from_prk(prk).unwrap();
    let mut okm = vec![0u8; out_len];
    match hk.expand(info, &mut okm) {
        Ok(()) => Ok(okm),
        Err(e) => Err(e),
    }
}

/// Relies on `hkdf::Hkdf::<Sha384>::from_prk` (never fails for a 48-byte
/// key) and `hkdf::Hkdf::expand`: HKDF-Expand over SHA-384 fills exactly
/// `out_len` bytes determined by the key and the info string, and errors
/// precisely when `out_len` exceeds 255 hash blocks.
#[verifier::external_body]
fn expand_sha384(prk: &[u8], info: &[u8], out_len: usize) -> (r: Result<
    Vec<u8>,
    hkdf::InvalidLength,
>)
    requires
        prk@.len() == 48,
    ensures
        r is Ok <==> out_len <= 255 * 48,
        r is Ok ==> r->Ok_0@ == hkdf_expand(0x0002, prk@, info@, out_len as int)
            && r->Ok_0@.len() == out_len,
{
    let hk = hkdf::Hkdf::<sha2::Sha384>::from_prk(prk).unwrap();
    let mut okm = vec![0u8; out_len];
    match hk.expand(info, &mut okm) {
        Ok(()) => Ok(okm),
        Err(e) => Err(e),
    }
}

/// Relies on `hkdf::Hkdf::<Sha512>::from_prk` (never fails for a 64-byte
/// key) and `hkdf::Hkdf::expand`: HKDF-Expand over SHA-512 fills exactly
/// `out_len` bytes determined by the key and the info string, and errors
/// precisely when `out_len` exceeds 255 hash blocks.
#[verifier::external_body]
fn expand_sha512(prk: &[u8], info: &[u8], out_len: usize) -> (r: Result<
    Vec<u8>,
    hkdf::InvalidLength,
>)
    requires
        prk@.len() == 64,
    ensures
        r is Ok <==> out_len <= 255 * 64,
        r is Ok ==> r->Ok_0@ == hkdf_expand(0x0003, prk@, info@, out_len as int)
            && r->Ok_0@.len() == out_len,
{
    let hk = hkdf::Hkdf::<sha2::Sha512>::from_prk(prk).unwrap();
    let mut okm = vec![0u8; out_len];
    match hk.expand(info, &mut okm) {
        Ok(()) => Ok(okm),
        Err(e) => Err(e),
    }
}

/// The recoverable failure of a labeled expand: the requested output
/// length exceeds what the expand primitive can produce for the selected
/// hash (255 hash blocks).
#[derive(Clone, Copy, Debug, PartialEq, Eq, Structural)]
pub enum KdfError {
    InvalidLength,
}

/// A key-derivation selection: a hash primitive paired with its 2-byte
/// identifier, offering HKDF extract and expand over that hash.
pub trait Kdf: Sized {
    /// The identifier as a specification-level constant.
    spec fn spec_kdf_id() -> u16;

    /// The hash output size in bytes, as a specification-level constant.
    spec fn spec_nh() -> int;

    /// The hash output size lies in the range the protocol admits.
    proof fn nh_in_range()
        ensures
            16 <= Self::spec_nh() <= 64,
    ;

    /// The 2-byte identifier of this KDF, exposed for ciphersuite
    /// negotiation.  Published identifiers never change.
    fn kdf_id() -> (r: u16)
        ensures
            r == Self::spec_kdf_id(),
    ;

    /// The hash output size in bytes: the length of every pseudorandom key
    /// this KDF extracts.
    fn nh() -> (r: usize)
        ensures
            r as int == Self::spec_nh(),
    ;

    /// HKDF-Extract over this KDF's hash.
    fn extract(salt: &[u8], ikm: &[u8]) -> (r: Vec<u8>)
        ensures
            r@ == hkdf_extract(Self::spec_kdf_id(), salt@, ikm@),
            r@.len() == Self::spec_nh(),
    ;

    /// HKDF-Expand over this KDF's hash: exactly `out_len` bytes, or the
    /// recoverable length error precisely when `out_len` exceeds 255 hash
    /// blocks.
    fn expand(prk: &[u8], info: &[u8], out_len: usize) -> (r: Result<Vec<u8>, KdfError>)
        requires
            prk@.len() == Self::spec_nh(),
        ensures
            r is Ok <==> out_len as int <= 255 * Self::spec_nh(),
            r is Ok ==> r->Ok_0@ == hkdf_expand(Self::spec_kdf_id(), prk@, info@, out_len as int)
                && r->Ok_0@.len() == out_len,
            r is Err ==> r->Err_0 == KdfError::InvalidLength,
    ;
}

/// HKDF-SHA256, identifier 0x0001.
pub struct HkdfSha256 {}

impl Kdf for HkdfSha256 {
    open spec fn spec_kdf_id() -> u16 {
        0x0001
    }

    open spec fn spec_nh() -> int {
        32
    }

    proof fn nh_in_range() {
    }

    fn kdf_id() -> u16 {
        0x0001
    }

    fn nh() -> usize {
        32
    }

    fn extract(salt: &[u8], ikm: &[u8]) -> Vec<u8> {
        extract_sha256(salt, ikm)
    }

    fn expand(prk: &[u8], info: &[u8], out_len: usize) -> Result<Vec<u8>, KdfError> {
        match expand_sha256(prk, info, out_len) {
            Ok(okm) => Ok(okm),
            Err(_) => Err(KdfError::InvalidLength),
        }
    }
}

/// HKDF-SHA384, identifier 0x0002.
pub struct HkdfSha384 {}

impl Kdf for HkdfSha384 {
    open spec fn spec_kdf_id() -> u16 {
        0x0002
    }

    open spec fn spec_nh() -> int {
        48
    }

    proof fn nh_in_range() {
    }

    fn kdf_id() -> u16 {
        0x0002
    }

    fn nh() -> usize {
        48
    }

    fn extract(salt: &[u8], ikm: &[u8]) -> Vec<u8> {
        extract_sha384(salt, ikm)
    }

    fn expand(prk: &[u8], info: &[u8], out_len: usize) -> Result<Vec<u8>, KdfError> {
        match expand_sha384(prk, info, out_len) {
            Ok(okm) => Ok(okm),
            Err(_) => Err(KdfError::InvalidLength),
        }
    }
}

/// HKDF-SHA512, identifier 0x0003.
pub struct HkdfSha512 {}

impl Kdf for HkdfSha512 {
    open spec fn spec_kdf_id() -> u16 {
        0x0003
    }

    open spec fn spec_nh() -> int {
        64
    }

    proof fn nh_in_range() {
    }

    fn kdf_id() -> u16 {
        0x0003
    }

    fn nh() -> usize {
        64
    }

    fn extract(salt: &[u8], ikm: &[u8]) -> Vec<u8> {
        extract_sha512(salt, ikm)
    }

    fn expand(prk: &[u8], info: &[u8], out_len: usize) -> Result<Vec<u8>, KdfError> {
        match expand_sha512(prk, info, out_len) {
            Ok(okm) => Ok(okm),
            Err(_) => Err(KdfError::InvalidLength),
        }
    }
}

/// Builds the version label as executable bytes.
fn version_label_bytes() -> (r: Vec<u8>)
    ensures
        r@ == version_label(),
{
    let mut v: Vec<u8> = Vec::new();
    v.push(0x48);
    v.push(0x50);
    v.push(0x4b);
    v.push(0x45);
    v.push(0x2d);
    v.push(0x76);
    v.push(0x31);
    proof {
        assert(v@ =~= version_label());
    }
    v
}

/// Appends all of `src` to `dst`.
fn concat_to(dst: &mut Vec<u8>, src: &[u8])
    ensures
        final(dst)@ == old(dst)@ + src@,
{
    let mut i: usize = 0;
    while i < src.len()
        invariant
            i <= src@.len(),
            dst@ == old(dst)@ + src@.subrange(0, i as int),
        decreases src@.len() - i,
    {
        dst.push(src[i]);
        proof {
            assert(src@.subrange(0, i + 1) =~= src@.subrange(0, i as int).push(src@[i as int]));
        }
        i = i + 1;
    }
    proof {
        assert(src@.subrange(0, i as int) =~= src@);
    }
}

/// Builds the ASCII bytes of `"eae_prk"`.
fn eae_prk_label_bytes() -> (r: Vec<u8>)
    ensures
        r@ == eae_prk_label(),
{
    let mut v: Vec<u8> = Vec::new();
    v.push(0x65);
    v.push(0x61);
    v.push(0x65);
    v.push(0x5f);
    v.push(0x70);
    v.push(0x72);
    v.push(0x6b);
    proof {
        assert(v@ =~= eae_prk_label());
    }
    v
}

/// Builds the ASCII bytes of `"shared_secret"`.
fn shared_secret_label_bytes() -> (r: Vec<u8>)
    ensures
        r@ == shared_secret_label(),
{
    let mut v: Vec<u8> = Vec::new();
    v.push(0x73);
    v.push(0x68);
    v.push(0x61);
    v.push(0x72);
    v.push(0x65);
    v.push(0x64);
    v.push(0x5f);
    v.push(0x73);
    v.push(0x65);
    v.push(0x63);
    v.push(0x72);
    v.push(0x65);
    v.push(0x74);
    proof {
        assert(v@ =~= shared_secret_label());
    }
    v
}

/// Labeled HKDF-Extract: runs extract over the salt and the framed input
/// `"HPKE-v1" || suite_id || label || ikm`, returning the pseudorandom key.
/// Deterministic, with no error condition for any input length.
pub fn labeled_extract<K: Kdf>(salt: &[u8], suite_id: &[u8], label: &[u8], ikm: &[u8]) -> (r: Vec<
    u8,
>)
    ensures
        r@ == hkdf_extract(K::spec_kdf_id(), salt@, labeled_ikm_bytes(suite_id@, label@, ikm@)),
        r@.len() == K::spec_nh(),
{
    let mut buf = version_label_bytes();
    concat_to(&mut buf, suite_id);
    concat_to(&mut buf, label);
    concat_to(&mut buf, ikm);
    K::extract(salt, buf.as_slice())
}

/// Labeled HKDF-Expand: runs expand over the pseudorandom key and the
/// framed info `I2OSP(out_len, 2) || "HPKE-v1" || suite_id || label ||
/// info`, returning exactly `out_len` bytes.  An output length beyond 255
/// hash blocks is the recoverable length error; one that does not fit 16
/// bits is a protocol design limit and is excluded outright.
pub fn labeled_expand<K: Kdf>(
    prk: &[u8],
    suite_id: &[u8],
    label: &[u8],
    info: &[u8],
    out_len: usize,
) -> (r: Result<Vec<u8>, KdfError>)
    requires
        prk@.len() == K::spec_nh(),
        out_len <= 0xFFFF,
    ensures
        r is Ok <==> out_len as int <= 255 * K::spec_nh(),
        r is Ok ==> r->Ok_0@ == hkdf_expand(
            K::spec_kdf_id(),
            prk@,
            labeled_info_bytes(out_len as int, suite_id@, label@, info@),
            out_len as int,
        ) && r->Ok_0@.len() == out_len,
        r is Err ==> r->Err_0 == KdfError::InvalidLength,
{
    let mut buf: Vec<u8> = Vec::new();
    buf.push((out_len / 256) as u8);
    buf.push((out_len % 256) as u8);
    proof {
        assert(buf@ =~= i2osp2(out_len as int));
    }
    let vl = version_label_bytes();
    concat_to(&mut buf, vl.as_slice());
    concat_to(&mut buf, suite_id);
    concat_to(&mut buf, label);
    concat_to(&mut buf, info);
    K::expand(prk, buf.as_slice(), out_len)
}

/// The pseudorandom key of the extract half of `extract_and_expand`: a
/// labeled extract with empty salt and the `"eae_prk"` label.
pub open spec fn eae_prk(kdf_id: u16, suite_id: Seq<u8>, ikm: Seq<u8>) -> Seq<u8> {
    hkdf_extract(kdf_id, Seq::empty(), labeled_ikm_bytes(suite_id, eae_prk_label(), ikm))
}

/// The bytes `extract_and_expand` produces: the `"eae_prk"` extract fed
/// into a `"shared_secret"` labeled expand.
pub open spec fn extract_and_expand_bytes(
    kdf_id: u16,
    suite_id: Seq<u8>,
    ikm: Seq<u8>,
    info: Seq<u8>,
    out_len: int,
) -> Seq<u8> {
    hkdf_expand(
        kdf_id,
        eae_prk(kdf_id, suite_id, ikm),
        labeled_info_bytes(out_len, suite_id, shared_secret_label(), info),
        out_len,
    )
}

/// Extracts a pseudorandom key from the shared secret `ikm` under the
/// `"eae_prk"` label, then expands it under the `"shared_secret"` label
/// with the given info bytes, filling `out` to its present length.  On the
/// recoverable length error `out` is left unchanged.
pub fn extract_and_expand<K: Kdf>(ikm: &[u8], suite_id: &[u8], info: &[u8], out: &mut Vec<u8>) -> (r:
    Result<(), KdfError>)
    requires
        old(out)@.len() <= 0xFFFF,
    ensures
        r is Ok <==> old(out)@.len() as int <= 255 * K::spec_nh(),
        r is Ok ==> final(out)@ == extract_and_expand_bytes(
            K::spec_kdf_id(),
            suite_id@,
            ikm@,
            info@,
            old(out)@.len() as int,
        ),
        final(out)@.len() == old(out)@.len(),
        r is Err ==> r->Err_0 == KdfError::InvalidLength && final(out)@ == old(out)@,
{
    let out_len = out.len();
    let salt: Vec<u8> = Vec::new();
    let eae_label = eae_prk_label_bytes();
    let prk = labeled_extract::<K>(salt.as_slice(), suite_id, eae_label.as_slice(), ikm);
    let ss_label = shared_secret_label_bytes();
    match labeled_expand::<K>(prk.as_slice(), suite_id, ss_label.as_slice(), info, out_len) {
        Ok(okm) => {
            *out = okm;
            Ok(())
        },
        Err(e) => Err(e),
    }
}

/// Law: labeled extraction is deterministic.  Any two pseudorandom keys
/// obtained from identical `(salt, suite_id, label, ikm)` inputs under the
/// same KDF are identical, since each equals the one value the contracts
/// of `labeled_extract` pin down.
pub proof fn lemma_labeled_extract_deterministic(
    kdf_id: u16,
    salt: Seq<u8>,
    suite_id: Seq<u8>,
    label: Seq<u8>,
    ikm: Seq<u8>,
    prk1: Seq<u8>,
    prk2: Seq<u8>,
)
    requires
        prk1 == hkdf_extract(kdf_id, salt, labeled_ikm_bytes(suite_id, label, ikm)),
        prk2 == hkdf_extract(kdf_id, salt, labeled_ikm_bytes(suite_id, label, ikm)),
    ensures
        prk1 == prk2,
{
}

/// Law: the labeled framing separates domains.  Under a fixed suite id and
/// input keying material, distinct labels always produce distinct extract
/// inputs, so the two extractions are of different messages.  (That the
/// hash then yields distinct keys is a cryptographic property of the hash,
/// not provable here.)
pub proof fn lemma_labeled_ikm_domain_separation(
    suite_id: Seq<u8>,
    label1: Seq<u8>,
    label2: Seq<u8>,
    ikm: Seq<u8>,
)
    requires
        label1 != label2,
    ensures
        labeled_ikm_bytes(suite_id, label1, ikm) != labeled_ikm_bytes(suite_id, label2, ikm),
{
    let a = labeled_ikm_bytes(suite_id, label1, ikm);
    let b = labeled_ikm_bytes(suite_id, label2, ikm);
    let p = version_label().len() + suite_id.len();
    if label1.len() != label2.len() {
        assert(a.len() != b.len());
    } else {
        assert(exists|j: int| 0 <= j < label1.len() && label1[j] != label2[j]) by {
            if forall|j: int| 0 <= j < label1.len() ==> label1[j] == label2[j] {
                assert(label1 =~= label2);
            }
        }
        let j = choose|j: int| 0 <= j < label1.len() && label1[j] != label2[j];
        assert(a[p + j] == label1[j]);
        assert(b[p + j] == label2[j]);
        assert(a[p + j] != b[p + j]);
    }
}

} // verus!
