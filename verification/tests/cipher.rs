use ec_secrets::blob::EncryptedBlob;
use ec_secrets::cipher::{decrypt, encrypt, encrypt_with, DecryptError};

#[test]
fn data() {
    let encrypted_data = encrypt(b"test", b"test").expect("Failed to encrypt");
    let data = decrypt(&encrypted_data, b"test").expect("Failed to decrypt");
    assert_eq!(data, b"test");
}

#[test]
fn round_trip_of_empty_plaintext_and_empty_secret() {
    let blob = encrypt(b"", b"").expect("Failed to encrypt");
    assert_eq!(blob.len(), 8 + 16 + 12 + 32);
    assert_eq!(decrypt(&blob, b"").expect("Failed to decrypt"), b"");
}

#[test]
fn two_encryptions_of_the_same_input_differ() {
    let first = encrypt(b"s3cr3t", b"shared").unwrap();
    let second = encrypt(b"s3cr3t", b"shared").unwrap();
    assert_ne!(first, second);
    assert_eq!(decrypt(&first, b"shared").unwrap(), b"s3cr3t");
    assert_eq!(decrypt(&second, b"shared").unwrap(), b"s3cr3t");
}

#[test]
fn envelope_has_the_documented_layout() {
    let blob = encrypt(b"hello", b"key").unwrap();
    assert_eq!(blob.len(), 8 + 5 + 16 + 12 + 32);
    assert_eq!(&blob[..8], &[21u8, 0, 0, 0, 0, 0, 0, 0]);
    let parts = EncryptedBlob::from_bytes(&blob).unwrap();
    assert_eq!(parts.data.len(), 21);
    assert_eq!(parts.nonce.len(), 12);
    assert_eq!(parts.salt.len(), 32);
    assert_eq!(parts.data, &blob[8..29]);
    assert_eq!(parts.nonce, &blob[29..41]);
    assert_eq!(parts.salt, &blob[41..73]);
}

#[test]
fn envelope_matches_bincode() {
    let data = vec![1u8, 2, 3, 4, 5, 6, 7];
    let nonce = [9u8; 12];
    let salt = [7u8; 32];
    let expected = bincode::serialize(&(data.clone(), nonce, salt)).unwrap();
    let blob = EncryptedBlob::new(data.clone(), nonce.to_vec(), salt.to_vec()).unwrap();
    assert_eq!(blob.to_bytes(), expected);
    let (d, n, s): (Vec<u8>, [u8; 12], [u8; 32]) = bincode::deserialize(&expected).unwrap();
    let back = EncryptedBlob::from_bytes(&expected).unwrap();
    assert_eq!(back.data, d);
    assert_eq!(back.nonce, n);
    assert_eq!(back.salt, s);
}

#[test]
fn envelope_reading_agrees_with_bincode_on_bad_input() {
    let good = EncryptedBlob::new(vec![1, 2, 3], vec![0; 12], vec![0; 32]).unwrap().to_bytes();
    for cut in 0..good.len() {
        let short = &good[..cut];
        assert!(EncryptedBlob::from_bytes(short).is_none());
        assert!(bincode::deserialize::<(Vec<u8>, [u8; 12], [u8; 32])>(short).is_err());
    }
    let mut long = good.clone();
    long.extend_from_slice(&[0xAA, 0xBB]);
    let read = EncryptedBlob::from_bytes(&long).unwrap();
    assert_eq!(read.data, vec![1, 2, 3]);
    assert!(bincode::deserialize::<(Vec<u8>, [u8; 12], [u8; 32])>(&long).is_ok());
    let mut huge = good.clone();
    huge[7] = 0xFF;
    assert!(EncryptedBlob::from_bytes(&huge).is_none());
}

#[test]
fn blob_with_wrong_nonce_or_salt_length_is_refused() {
    assert!(EncryptedBlob::new(vec![], vec![0; 11], vec![0; 32]).is_none());
    assert!(EncryptedBlob::new(vec![], vec![0; 12], vec![0; 31]).is_none());
    assert!(EncryptedBlob::new(vec![], vec![0; 12], vec![0; 32]).is_some());
}

#[test]
fn flipping_any_ciphertext_bit_is_detected() {
    let blob = encrypt(b"attack at dawn", b"shared").unwrap();
    let first = 8;
    let last_of_text = 8 + 14 - 1;
    let first_of_tag = 8 + 14;
    let last_of_tag = 8 + 14 + 16 - 1;
    for (byte, bit) in [(first, 0), (first + 5, 7), (last_of_text, 3), (first_of_tag, 0), (last_of_tag, 7)] {
        let mut tampered = blob.clone();
        tampered[byte] ^= 1 << bit;
        let result = decrypt(&tampered, b"shared");
        assert!(matches!(result, Err(DecryptError::Cipher(_))));
    }
}

#[test]
fn flipping_a_nonce_or_salt_bit_is_detected() {
    let blob = encrypt(b"attack at dawn", b"shared").unwrap();
    let mut nonce_changed = blob.clone();
    nonce_changed[8 + 30] ^= 1;
    assert!(matches!(decrypt(&nonce_changed, b"shared"), Err(DecryptError::Cipher(_))));
    let mut salt_changed = blob.clone();
    let last = salt_changed.len() - 1;
    salt_changed[last] ^= 0x80;
    assert!(matches!(decrypt(&salt_changed, b"shared"), Err(DecryptError::Cipher(_))));
}

#[test]
fn wrong_shared_secret_is_rejected() {
    let blob = encrypt(b"s3cr3t", b"right").unwrap();
    assert!(matches!(decrypt(&blob, b"wrong"), Err(DecryptError::Cipher(_))));
    assert!(matches!(decrypt(&blob, b""), Err(DecryptError::Cipher(_))));
    assert_eq!(decrypt(&blob, b"right").unwrap(), b"s3cr3t");
}

#[test]
fn bytes_that_hold_no_envelope_fail_to_deserialize() {
    assert!(matches!(decrypt(b"", b"k"), Err(DecryptError::Deserialize)));
    assert!(matches!(decrypt(&[0u8; 51], b"k"), Err(DecryptError::Deserialize)));
    let mut announces_too_much = vec![0u8; 52];
    announces_too_much[0] = 1;
    assert!(matches!(decrypt(&announces_too_much, b"k"), Err(DecryptError::Deserialize)));
}

#[test]
fn envelope_without_a_tag_fails_in_the_cipher() {
    assert!(matches!(decrypt(&[0u8; 52], b"k"), Err(DecryptError::Cipher(_))));
}

#[test]
fn decrypt_error_messages() {
    let e = decrypt(b"", b"k").unwrap_err();
    assert_eq!(e.message(), "failed to deserialize encrypted file from binary format");
    let e = decrypt(&[0u8; 52], b"k").unwrap_err();
    assert_eq!(
        e.message(),
        "error decrypting with chacha20poly1305 (possibly invalid encryption key)"
    );
}

#[test]
fn envelope_is_a_function_of_data_secret_salt_and_nonce() {
    let salt = vec![5u8; 32];
    let nonce = vec![6u8; 12];
    let first = encrypt_with(b"s3cr3t", b"shared", salt.clone(), nonce.clone()).unwrap();
    let second = encrypt_with(b"s3cr3t", b"shared", salt.clone(), nonce.clone()).unwrap();
    assert_eq!(first, second);
    assert_eq!(first.len(), 8 + 6 + 16 + 12 + 32);
    assert_eq!(&first[..8], &[22u8, 0, 0, 0, 0, 0, 0, 0]);
    assert_eq!(&first[30..42], &nonce[..]);
    assert_eq!(&first[42..], &salt[..]);
    assert_ne!(&first[8..14], b"s3cr3t");
    assert_eq!(decrypt(&first, b"shared").unwrap(), b"s3cr3t");

    let other_salt = encrypt_with(b"s3cr3t", b"shared", vec![7u8; 32], nonce.clone()).unwrap();
    let other_nonce = encrypt_with(b"s3cr3t", b"shared", salt.clone(), vec![7u8; 12]).unwrap();
    assert_ne!(first[8..30], other_salt[8..30]);
    assert_ne!(first[8..30], other_nonce[8..30]);
    assert_eq!(decrypt(&other_salt, b"shared").unwrap(), b"s3cr3t");
    assert_eq!(decrypt(&other_nonce, b"shared").unwrap(), b"s3cr3t");
}

#[test]
fn plaintext_is_one_tag_shorter_than_the_ciphertext() {
    for text in [&b""[..], &b"a"[..], &b"attack at dawn"[..]] {
        let blob = encrypt(text, b"k").unwrap();
        let parts = EncryptedBlob::from_bytes(&blob).unwrap();
        let plain = decrypt(&blob, b"k").unwrap();
        assert_eq!(plain.len() + 16, parts.data.len());
    }
}
