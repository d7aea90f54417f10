use encryption::{
    decrypt_bytes, decrypt_bytes_with_aad, encrypt_bytes, encrypt_bytes_with_aad,
    EncryptionError, NONCE_SIZE, TAG_SIZE,
};
use rand_core::{OsRng, RngCore};

fn random_key() -> [u8; 32] {
    let mut key = [0u8; 32];
    OsRng.fill_bytes(&mut key);
    key
}

#[test]
fn test_encrypt_decrypt() {
    let key = random_key();
    let plaintext = b"This is a test message";
    let encrypted = encrypt_bytes(&key, plaintext).unwrap();
    assert!(encrypted.len() > plaintext.len());
    let decrypted = decrypt_bytes(&key, &encrypted).unwrap();
    assert_eq!(decrypted, plaintext);
}

#[test]
fn test_encrypt_decrypt_with_aad() {
    let key = random_key();
    let plaintext = b"This is a test message";
    let aad = b"Additional authenticated data";
    let encrypted = encrypt_bytes_with_aad(&key, plaintext, aad).unwrap();
    let decrypted = decrypt_bytes_with_aad(&key, &encrypted, aad).unwrap();
    assert_eq!(decrypted, plaintext);
    let wrong_aad = b"Wrong additional data";
    let result = decrypt_bytes_with_aad(&key, &encrypted, wrong_aad);
    assert!(result.is_err());
}

#[test]
fn test_tampered_data() {
    let key = random_key();
    let plaintext = b"This is a test message";
    let mut encrypted = encrypt_bytes(&key, plaintext).unwrap();
    if let Some(byte) = encrypted.get_mut(NONCE_SIZE + 5) {
        *byte ^= 0x01;
    }
    let result = decrypt_bytes(&key, &encrypted);
    assert!(result.is_err());
}

#[test]
fn blob_layout_is_nonce_ciphertext_tag() {
    let key = random_key();
    let encrypted = encrypt_bytes(&key, b"abc").unwrap();
    assert_eq!(encrypted.len(), NONCE_SIZE + 3 + TAG_SIZE);
    assert_eq!(encrypted.len(), 31);
}

#[test]
fn empty_plaintext_round_trips() {
    let key = random_key();
    let encrypted = encrypt_bytes(&key, b"").unwrap();
    assert_eq!(encrypted.len(), 28);
    assert_eq!(decrypt_bytes(&key, &encrypted).unwrap(), Vec::<u8>::new());
}

#[test]
fn ciphertext_differs_from_plaintext() {
    let key = random_key();
    let plaintext = b"This is a test message";
    let encrypted = encrypt_bytes(&key, plaintext).unwrap();
    assert_ne!(&encrypted[NONCE_SIZE..NONCE_SIZE + plaintext.len()], &plaintext[..]);
}

#[test]
fn fresh_nonce_per_encryption() {
    let key = random_key();
    let a = encrypt_bytes(&key, b"same").unwrap();
    let b = encrypt_bytes(&key, b"same").unwrap();
    assert_ne!(a[..NONCE_SIZE], b[..NONCE_SIZE]);
    assert_eq!(decrypt_bytes(&key, &a).unwrap(), decrypt_bytes(&key, &b).unwrap());
}

#[test]
fn every_flipped_byte_fails_authentication() {
    let key = random_key();
    let encrypted = encrypt_bytes(&key, b"hello").unwrap();
    for i in 0..encrypted.len() {
        let mut tampered = encrypted.clone();
        tampered[i] ^= 0x80;
        assert_eq!(decrypt_bytes(&key, &tampered), Err(EncryptionError::AeadError));
    }
}

#[test]
fn short_blob_is_data_too_short() {
    let key = random_key();
    for n in 0..13 {
        let blob = vec![7u8; n];
        assert_eq!(decrypt_bytes(&key, &blob), Err(EncryptionError::DataTooShort));
        assert_eq!(decrypt_bytes(&[1u8; 5], &blob), Err(EncryptionError::DataTooShort));
    }
}

#[test]
fn blob_without_room_for_tag_fails_authentication() {
    let key = random_key();
    let blob = vec![0u8; 13];
    assert_eq!(decrypt_bytes(&key, &blob), Err(EncryptionError::AeadError));
}

#[test]
fn wrong_key_fails_authentication() {
    let key = random_key();
    let mut other = key;
    other[0] ^= 1;
    let encrypted = encrypt_bytes(&key, b"secret").unwrap();
    assert_eq!(decrypt_bytes(&other, &encrypted), Err(EncryptionError::AeadError));
}

#[test]
fn wrong_aad_fails_authentication() {
    let key = random_key();
    let encrypted = encrypt_bytes_with_aad(&key, b"secret", b"row-1").unwrap();
    assert_eq!(
        decrypt_bytes_with_aad(&key, &encrypted, b"row-2"),
        Err(EncryptionError::AeadError)
    );
    assert_eq!(decrypt_bytes(&key, &encrypted), Err(EncryptionError::AeadError));
}

#[test]
fn invalid_key_length_is_reported() {
    let short = [0u8; 16];
    assert_eq!(
        encrypt_bytes(&short, b"x"),
        Err(EncryptionError::Encryption("Invalid key length".to_string()))
    );
    assert_eq!(
        encrypt_bytes_with_aad(&short, b"x", b"y"),
        Err(EncryptionError::Encryption("Invalid key length".to_string()))
    );
    assert_eq!(
        decrypt_bytes(&short, &[0u8; 40]),
        Err(EncryptionError::Decryption("Invalid key length".to_string()))
    );
}

#[test]
fn decrypted_plaintext_is_blob_minus_nonce_and_tag() {
    let key = random_key();
    let encrypted = encrypt_bytes(&key, b"twelve bytes").unwrap();
    let decrypted = decrypt_bytes(&key, &encrypted).unwrap();
    assert_eq!(decrypted.len() + 28, encrypted.len());
    for n in 13..28 {
        assert_eq!(decrypt_bytes(&key, &encrypted[..n]), Err(EncryptionError::AeadError));
    }
}

#[test]
fn errors_from_text() {
    assert_eq!(EncryptionError::from("boom"), EncryptionError::Other("boom".to_string()));
    assert_eq!(
        EncryptionError::from("bang".to_string()),
        EncryptionError::Other("bang".to_string())
    );
}

#[test]
fn error_messages() {
    assert_eq!(EncryptionError::AeadError.message(), "AES-GCM operation failed");
    assert_eq!(
        EncryptionError::KeyDerivation("bad".to_string()).message(),
        "Key derivation failed: bad"
    );
    assert_eq!(EncryptionError::KeyNotAvailable.message(), "Encryption key not available");
    assert_eq!(
        EncryptionError::DataTooShort.message(),
        "Decryption failed: Data too short"
    );
}

fn counting_key() -> [u8; 32] {
    let mut key = [0u8; 32];
    for (i, b) in key.iter_mut().enumerate() {
        *b = i as u8;
    }
    key
}

#[test]
fn known_blob_decrypts() {
    let blob: [u8; 33] = [
        100, 101, 102, 103, 104, 105, 106, 107, 108, 109, 110, 111, 32, 126, 178, 10, 22, 201,
        114, 224, 179, 42, 81, 250, 169, 62, 0, 194, 222, 251, 58, 241, 69,
    ];
    assert_eq!(decrypt_bytes(&counting_key(), &blob).unwrap(), b"hello");
}

#[test]
fn known_blob_with_aad_decrypts() {
    let blob: [u8; 33] = [
        100, 101, 102, 103, 104, 105, 106, 107, 108, 109, 110, 111, 32, 126, 178, 10, 22, 13,
        196, 203, 247, 135, 171, 38, 145, 153, 97, 83, 223, 170, 227, 197, 174,
    ];
    assert_eq!(
        decrypt_bytes_with_aad(&counting_key(), &blob, b"aad").unwrap(),
        b"hello"
    );
    assert_eq!(
        decrypt_bytes(&counting_key(), &blob),
        Err(EncryptionError::AeadError)
    );
}
