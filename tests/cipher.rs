use alpaca::cipher::decrypt;
use alpaca::cipher::encrypt;
use alpaca::cipher::generate_key_material;
use alpaca::cipher::open_contents;
use alpaca::cipher::seal_contents;
use alpaca::cipher::KeyMaterial;
use alpaca::error::CryptoError;
use alpaca::error::Error;

#[test]
fn generated_material_has_exact_lengths() {
    let km = generate_key_material();
    assert_eq!(km.key.len(), 16);
    assert_eq!(km.nonce.len(), 12);
}

#[test]
fn fresh_material_differs_between_draws() {
    let a = generate_key_material();
    let b = generate_key_material();
    assert_ne!(a, b);
}

#[test]
fn encrypt_decrypt_round_trip() {
    let km = generate_key_material();
    let plain = b"attack at dawn".to_vec();
    let ct = encrypt(&plain, &km.key, &km.nonce).unwrap();
    assert_eq!(ct.len(), plain.len() + 16);
    assert_ne!(&ct[..plain.len()], &plain[..]);
    assert_eq!(decrypt(&ct, &km.key, &km.nonce).unwrap(), plain);
}

#[test]
fn encrypt_known_vector() {
    // AES-128-GCM with an all-zero key and nonce on an empty plaintext gives the tag alone.
    let ct = encrypt(&[], &[0u8; 16], &[0u8; 12]).unwrap();
    let expected: Vec<u8> = vec![
        0x58, 0xe2, 0xfc, 0xce, 0xfa, 0x7e, 0x30, 0x61, 0x36, 0x7f, 0x1d, 0x57, 0xa4, 0xe7, 0x45,
        0x5a,
    ];
    assert_eq!(ct, expected);
}

#[test]
fn encrypt_rejects_bad_key_length() {
    assert_eq!(
        encrypt(b"x", &[0u8; 15], &[0u8; 12]),
        Err(CryptoError::InvalidKeyMaterial)
    );
    assert_eq!(
        encrypt(b"x", &[0u8; 16], &[0u8; 11]),
        Err(CryptoError::InvalidKeyMaterial)
    );
}

#[test]
fn decrypt_with_wrong_key_fails() {
    let km = generate_key_material();
    let ct = encrypt(b"secret", &km.key, &km.nonce).unwrap();
    let mut other = km.key.clone();
    other[0] ^= 1;
    assert_eq!(
        decrypt(&ct, &other, &km.nonce),
        Err(CryptoError::AuthenticationFailed)
    );
}

#[test]
fn decrypt_with_wrong_nonce_fails() {
    let km = generate_key_material();
    let ct = encrypt(b"secret", &km.key, &km.nonce).unwrap();
    let mut other = km.nonce.clone();
    other[11] ^= 0x80;
    assert_eq!(
        decrypt(&ct, &km.key, &other),
        Err(CryptoError::AuthenticationFailed)
    );
}

#[test]
fn decrypt_of_bit_flipped_ciphertext_fails() {
    let km = generate_key_material();
    let ct = encrypt(b"secret message", &km.key, &km.nonce).unwrap();
    for i in 0..ct.len() {
        let mut bad = ct.clone();
        bad[i] ^= 0x04;
        assert_eq!(
            decrypt(&bad, &km.key, &km.nonce),
            Err(CryptoError::AuthenticationFailed)
        );
    }
}

#[test]
fn decrypt_of_truncated_ciphertext_fails() {
    let km = generate_key_material();
    let ct = encrypt(b"secret", &km.key, &km.nonce).unwrap();
    assert_eq!(
        decrypt(&ct[..10], &km.key, &km.nonce),
        Err(CryptoError::AuthenticationFailed)
    );
}

#[test]
fn sealed_contents_open_back() {
    let km = generate_key_material();
    let plain = b"line one\nline two\n".to_vec();
    let stored = seal_contents(&plain, &km).unwrap();
    assert_eq!(&stored[..2], &[0x1f, 0x8b]);
    assert_eq!(open_contents(&stored, &km).unwrap(), plain);
}

#[test]
fn open_contents_reports_codec_and_auth_errors() {
    let km = generate_key_material();
    assert_eq!(open_contents(b"plain text", &km), Err(Error::Codec));
    let stored = seal_contents(b"data", &km).unwrap();
    let other = generate_key_material();
    assert_eq!(
        open_contents(&stored, &other),
        Err(Error::Crypto(CryptoError::AuthenticationFailed))
    );
}

#[test]
fn seal_contents_rejects_malformed_material() {
    let km = KeyMaterial { key: vec![1, 2, 3], nonce: vec![0; 12] };
    assert_eq!(
        seal_contents(b"data", &km),
        Err(Error::Crypto(CryptoError::InvalidKeyMaterial))
    );
}
