use safex_opaque::{decrypt_payload, derive_aes_key, encrypt_payload, ErrorKind, NONCE_LEN};

#[test]
fn aead_round_trip() {
    let key = vec![7u8; 64];
    let plaintext = b"super secret data".to_vec();
    let payload = encrypt_payload(&key, &plaintext).expect("encrypt");
    assert_eq!(payload.len(), NONCE_LEN + plaintext.len() + 16);
    let restored = decrypt_payload(&key, &payload).expect("decrypt");
    assert_eq!(restored, plaintext);
}

#[test]
fn aead_round_trip_empty_plaintext() {
    let key = vec![3u8; 64];
    let plaintext: Vec<u8> = Vec::new();
    let payload = encrypt_payload(&key, &plaintext).expect("encrypt");
    assert_eq!(payload.len(), NONCE_LEN + 16);
    let restored = decrypt_payload(&key, &payload).expect("decrypt");
    assert_eq!(restored, plaintext);
}

#[test]
fn encrypt_rejects_empty_export_key() {
    let err = encrypt_payload(&Vec::new(), &b"payload".to_vec()).unwrap_err();
    assert_eq!(err.kind(), ErrorKind::InvalidInput);
    assert!(err.message().contains("export_key must not be empty"));
}

#[test]
fn decrypt_rejects_empty_export_key() {
    let err = decrypt_payload(&Vec::new(), &vec![0u8; 40]).unwrap_err();
    assert_eq!(err.kind(), ErrorKind::InvalidInput);
}

#[test]
fn decrypt_rejects_short_payload() {
    let key = vec![0u8; 64];
    let short = vec![0u8; NONCE_LEN - 1];
    let err = decrypt_payload(&key, &short).unwrap_err();
    assert_eq!(err.kind(), ErrorKind::InvalidInput);
    assert!(err.message().contains("payload too small"));
}

#[test]
fn decrypt_fails_on_modified_ciphertext() {
    let key = vec![7u8; 64];
    let mut payload = encrypt_payload(&key, &b"secret bytes".to_vec()).expect("encrypt");
    payload[12] ^= 0xFF;
    let err = decrypt_payload(&key, &payload).unwrap_err();
    assert_eq!(err.kind(), ErrorKind::CryptoFailure);
}

#[test]
fn decrypt_fails_on_any_flipped_bit_after_nonce() {
    let key = vec![42u8; 64];
    let payload = encrypt_payload(&key, &b"tamper sweep".to_vec()).expect("encrypt");
    for i in 12..payload.len() {
        for bit in 0..8u8 {
            let mut copy = payload.clone();
            copy[i] ^= 1 << bit;
            let err = decrypt_payload(&key, &copy).unwrap_err();
            assert_eq!(err.kind(), ErrorKind::CryptoFailure);
        }
    }
}

#[test]
fn nonce_is_fresh_per_encryption() {
    let key = vec![9u8; 64];
    let m = b"same message".to_vec();
    let p1 = encrypt_payload(&key, &m).expect("encrypt");
    let p2 = encrypt_payload(&key, &m).expect("encrypt");
    assert_ne!(&p1[..NONCE_LEN], &p2[..NONCE_LEN]);
}

#[test]
fn derive_aes_key_is_deterministic() {
    let key = vec![5u8; 64];
    let k1 = derive_aes_key(&key).expect("derive");
    let k2 = derive_aes_key(&key).expect("derive");
    assert_eq!(k1, k2);
    assert_eq!(k1.len(), 32);
    let other = derive_aes_key(&vec![6u8; 64]).expect("derive");
    assert_ne!(k1, other);
}

#[test]
fn derive_aes_key_rejects_empty_input() {
    let err = derive_aes_key(&Vec::new()).unwrap_err();
    assert_eq!(err.kind(), ErrorKind::InvalidInput);
}
