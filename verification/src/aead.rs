use vstd::prelude::*;

use crate::bytes::copy_range;
use crate::common::{CommonError, CommonResult, ErrorKind, AES_KEY_LEN, NONCE_LEN};
use crate::osrand::random_bytes;

verus! {

/// Largest plaintext AES-GCM accepts (2^36 bytes).
pub const GCM_PLAINTEXT_MAX: u64 = 0x10_0000_0000;

/// Length in bytes of the authentication tag AES-GCM appends.
pub const GCM_TAG_LEN: usize = 16;

/// The AES-256 key that HKDF-SHA-512 expands from an export key, with the
/// fixed domain-separation salt and info strings of this library.
pub uninterp spec fn aes_key_of(export_key: Seq<u8>) -> Seq<u8>;

/// The ciphertext-with-tag that AES-256-GCM produces from a key, a nonce and
/// a plaintext (no associated data).
pub uninterp spec fn gcm_ciphertext_of(key: Seq<u8>, nonce: Seq<u8>, plaintext: Seq<u8>) -> Seq<u8>;

/// Relies on hkdf::Hkdf::<Sha512>::expand with salt `safex/opaque/export-key`
/// and info `safex/aes256-gcm`: a deterministic function of the input key
/// material alone. Expansion to 32 bytes is far below the 255-blocks bound,
/// so it cannot fail.
#[verifier::external_body]
fn hkdf_aes_key(export_key: &Vec<u8>) -> (r: Vec<u8>)
    ensures
        r@ == aes_key_of(export_key@),
        r@.len() == AES_KEY_LEN,
{
    let hk = hkdf::Hkdf::<sha2::Sha512>::new(
        Some(b"safex/opaque/export-key"),
        export_key.as_slice(),
    );
    let mut key = vec![0u8; AES_KEY_LEN];
    let _ = hk.expand(b"safex/aes256-gcm", &mut key);
    key
}

/// Relies on aes_gcm::Aes256Gcm::encrypt: deterministic in key, nonce and
/// plaintext, appends a 16-byte tag, and accepts any plaintext up to 2^36
/// bytes (excluded here by `requires`, so the call cannot fail).
#[verifier::external_body]
fn gcm_encrypt(key: &Vec<u8>, nonce: &Vec<u8>, plaintext: &Vec<u8>) -> (r: Vec<u8>)
    requires
        key@.len() == AES_KEY_LEN,
        nonce@.len() == NONCE_LEN,
        plaintext@.len() <= GCM_PLAINTEXT_MAX,
    ensures
        r@ == gcm_ciphertext_of(key@, nonce@, plaintext@),
        r@.len() == plaintext@.len() + GCM_TAG_LEN,
{
    let cipher = <aes_gcm::Aes256Gcm as aes_gcm::KeyInit>::new_from_slice(key.as_slice())
        .expect("AES-256 key must be 32 bytes");
    let nonce_ga = aes_gcm::Nonce::<<aes_gcm::Aes256Gcm as aes_gcm::AeadCore>::NonceSize>::from_slice(
        nonce.as_slice(),
    );
    aes_gcm::aead::Aead::encrypt(&cipher, nonce_ga, plaintext.as_slice())
        .expect("plaintext within AES-GCM bounds")
}

/// Relies on aes_gcm::Aes256Gcm::decrypt: verifies the tag and inverts
/// encryption, so it returns exactly the plaintext whose encryption under
/// (key, nonce) is the given ciphertext, and succeeds whenever such a
/// plaintext exists.
#[verifier::external_body]
fn gcm_decrypt(key: &Vec<u8>, nonce: &Vec<u8>, ciphertext: &Vec<u8>) -> (r: Option<Vec<u8>>)
    requires
        key@.len() == AES_KEY_LEN,
        nonce@.len() == NONCE_LEN,
    ensures
        r is Some ==> ciphertext@ == gcm_ciphertext_of(key@, nonce@, r->0@) && r->0@.len()
            + GCM_TAG_LEN == ciphertext@.len(),
        forall|pt: Seq<u8>|
            pt.len() <= GCM_PLAINTEXT_MAX && ciphertext@ == gcm_ciphertext_of(key@, nonce@, pt)
                ==> r is Some && r->0@ == pt,
{
    let cipher = <aes_gcm::Aes256Gcm as aes_gcm::KeyInit>::new_from_slice(key.as_slice())
        .expect("AES-256 key must be 32 bytes");
    let nonce_ga = aes_gcm::Nonce::<<aes_gcm::Aes256Gcm as aes_gcm::AeadCore>::NonceSize>::from_slice(
        nonce.as_slice(),
    );
    match aes_gcm::aead::Aead::decrypt(&cipher, nonce_ga, ciphertext.as_slice()) {
        Ok(pt) => Some(pt),
        Err(_) => None,
    }
}

/// Derives the AES-256 key for a non-empty export key; the empty key is the
/// one rejected input.
pub fn derive_aes_key(export_key: &Vec<u8>) -> (r: CommonResult<Vec<u8>>)
    ensures
        r is Ok <==> export_key@.len() > 0,
        r is Ok ==> r->Ok_0@ == aes_key_of(export_key@) && r->Ok_0@.len() == AES_KEY_LEN,
        r is Err ==> r->Err_0.kind == ErrorKind::InvalidInput,
{
    if export_key.len() == 0 {
        return Err(CommonError::new(ErrorKind::InvalidInput, "export_key must not be empty"));
    }
    Ok(hkdf_aes_key(export_key))
}

/// True when `payload` is a well-formed sealed form of `plaintext` under
/// `export_key`: a 12-byte nonce followed by the AES-GCM ciphertext-with-tag
/// of `plaintext` under the key HKDF derives from `export_key`.
pub open spec fn aead_payload_for(export_key: Seq<u8>, plaintext: Seq<u8>, payload: Seq<u8>) -> bool {
    &&& payload.len() == plaintext.len() + NONCE_LEN + GCM_TAG_LEN
    &&& payload.subrange(NONCE_LEN as int, payload.len() as int) == gcm_ciphertext_of(
        aes_key_of(export_key),
        payload.subrange(0, NONCE_LEN as int),
        plaintext,
    )
}

/// What a decryption result `r` may say of `(export_key, payload)`: an
/// accepted result is a plaintext whose sealed form is exactly `payload`, and
/// any plaintext with that sealed form is accepted and returned.
pub open spec fn decrypt_returns(export_key: Seq<u8>, payload: Seq<u8>, r: Option<Seq<u8>>) -> bool {
    &&& (r is Some ==> aead_payload_for(export_key, r->0, payload))
    &&& (forall|m: Seq<u8>|
        m.len() <= GCM_PLAINTEXT_MAX && aead_payload_for(export_key, m, payload) ==> r is Some
            && r->0 == m)
}

/// The plaintext carried by an `Ok` result, if any.
pub open spec fn ok_bytes(r: CommonResult<Vec<u8>>) -> Option<Seq<u8>> {
    match r {
        Ok(v) => Some(v@),
        Err(_) => None,
    }
}

/// Seals `data` under `export_key`: a fresh random 12-byte nonce followed by
/// the AES-256-GCM ciphertext under the HKDF-derived key.
pub fn encrypt_payload(export_key: &Vec<u8>, data: &Vec<u8>) -> (r: CommonResult<Vec<u8>>)
    requires
        data@.len() <= GCM_PLAINTEXT_MAX,
    ensures
        r is Ok <==> export_key@.len() > 0,
        r is Err ==> r->Err_0.kind == ErrorKind::InvalidInput,
        r is Ok ==> aead_payload_for(export_key@, data@, r->Ok_0@),
{
    let key = derive_aes_key(export_key)?;
    let mut payload = random_bytes(NONCE_LEN);
    let ghost nonce = payload@;
    let ciphertext = gcm_encrypt(&key, &payload, data);
    crate::bytes::extend_from(&mut payload, &ciphertext);
    proof {
        assert(payload@.subrange(0, NONCE_LEN as int) =~= nonce);
        assert(payload@.subrange(NONCE_LEN as int, payload@.len() as int) =~= ciphertext@);
    }
    Ok(payload)
}

/// Opens a sealed payload: splits off the 12-byte nonce, derives the key and
/// verifies-and-decrypts the rest. Payloads shorter than the nonce and empty
/// export keys are rejected as invalid input; an authentication failure is a
/// crypto failure. Whenever the payload is the sealed form of some plaintext
/// under the (non-empty) export key, that plaintext is returned.
pub fn decrypt_payload(export_key: &Vec<u8>, payload: &Vec<u8>) -> (r: CommonResult<Vec<u8>>)
    ensures
        r is Ok ==> export_key@.len() > 0 && payload@.len() >= NONCE_LEN,
        export_key@.len() > 0 ==> decrypt_returns(export_key@, payload@, ok_bytes(r)),
        payload@.len() < NONCE_LEN ==> r is Err && r->Err_0.kind == ErrorKind::InvalidInput
            && r->Err_0.msg@ == "payload too small"@,
        export_key@.len() == 0 && payload@.len() >= NONCE_LEN ==> r is Err && r->Err_0.kind
            == ErrorKind::InvalidInput,
        export_key@.len() > 0 && payload@.len() >= NONCE_LEN && r is Err ==> r->Err_0.kind
            == ErrorKind::CryptoFailure,
        r is Err ==> r->Err_0.kind == ErrorKind::InvalidInput || r->Err_0.kind
            == ErrorKind::CryptoFailure,
{
    if payload.len() < NONCE_LEN {
        return Err(CommonError::new(ErrorKind::InvalidInput, "payload too small"));
    }
    let key = derive_aes_key(export_key)?;
    let nonce = copy_range(payload, 0, NONCE_LEN);
    let body = copy_range(payload, NONCE_LEN, payload.len());
    match gcm_decrypt(&key, &nonce, &body) {
        Some(pt) => Ok(pt),
        None => Err(CommonError::new(ErrorKind::CryptoFailure, "aead decryption failed")),
    }
}

/// Law: sealing then opening is the identity. Any result that decryption may
/// return for the sealed form of `m` under `k` is `m` itself.
pub proof fn lemma_aead_round_trip(k: Seq<u8>, m: Seq<u8>, p: Seq<u8>, r: Option<Seq<u8>>)
    requires
        m.len() <= GCM_PLAINTEXT_MAX,
        aead_payload_for(k, m, p),
        decrypt_returns(k, p, r),
    ensures
        r == Some(m),
{
    assert(r is Some && r->0 == m);
    assert(r =~= Some(m));
}

} // verus!
