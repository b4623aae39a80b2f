use mica_term::credential_crypto::{
    decode_credential_record, decrypt_local_credential_bytes, derive_local_encryption_key,
    encode_credential_record, encrypt_local_credential_bytes, seal_credential_bytes, CredentialCryptoError,
};
use sha2::Digest;

#[test]
fn local_key_is_the_digest_of_service_folder_user_and_host() {
    let key = derive_local_encryption_key("/data", Some("alice"), Some("box"));
    let expected: [u8; 32] = sha2::Sha256::digest(b"mica-term/dataalicebox").into();
    assert_eq!(key, expected);
    let without_env: [u8; 32] = sha2::Sha256::digest(b"mica-term/data").into();
    assert_eq!(derive_local_encryption_key("/data", None, None), without_env);
    assert_ne!(derive_local_encryption_key("/other", None, None), without_env);
}

#[test]
fn records_frame_nonce_and_ciphertext_with_lengths() {
    let record = encode_credential_record(&[1, 2], &[3, 4, 5]);
    assert_eq!(record, vec![2, 0, 0, 0, 0, 0, 0, 0, 1, 2, 3, 0, 0, 0, 0, 0, 0, 0, 3, 4, 5]);
    assert_eq!(decode_credential_record(&record), Some((vec![1, 2], vec![3, 4, 5])));
    let mut trailing = record.clone();
    trailing.push(9);
    assert_eq!(decode_credential_record(&trailing), Some((vec![1, 2], vec![3, 4, 5])));
    assert_eq!(decode_credential_record(&record[..20]), None);
    assert_eq!(decode_credential_record(&[1, 2, 3]), None);
}

#[test]
fn encrypted_secrets_decrypt_back() {
    let key = derive_local_encryption_key("/data", Some("alice"), None);
    let sealed = encrypt_local_credential_bytes(b"top secret", &key).expect("encrypts");
    assert_eq!(sealed.len(), 16 + 24 + b"top secret".len() + 16);
    assert_eq!(decrypt_local_credential_bytes(&sealed, &key), Ok(b"top secret".to_vec()));
    let other_key = derive_local_encryption_key("/elsewhere", None, None);
    assert_eq!(decrypt_local_credential_bytes(&sealed, &other_key), Err(CredentialCryptoError::DecryptFailed));
    let mut tampered = sealed.clone();
    let last = tampered.len() - 1;
    tampered[last] ^= 1;
    assert_eq!(decrypt_local_credential_bytes(&tampered, &key), Err(CredentialCryptoError::DecryptFailed));
    assert_eq!(decrypt_local_credential_bytes(&[0, 1], &key), Err(CredentialCryptoError::DecodeFailed));
    let short_nonce = encode_credential_record(&[0; 12], &[0; 20]);
    assert_eq!(decrypt_local_credential_bytes(&short_nonce, &key), Err(CredentialCryptoError::InvalidNonceLength));
    assert_eq!(CredentialCryptoError::InvalidNonceLength.message(), "invalid encrypted credential nonce length");
}

#[test]
fn sealing_with_a_given_nonce_is_deterministic() {
    let key = [7u8; 32];
    let nonce = [9u8; 24];
    let a = seal_credential_bytes(b"x", &key, &nonce).unwrap();
    let b = seal_credential_bytes(b"x", &key, &nonce).unwrap();
    assert_eq!(a, b);
    assert_eq!(&a[8..32], &nonce[..]);
}
