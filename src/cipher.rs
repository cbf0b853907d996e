use vstd::prelude::*;
use aes_gcm::aead::Aead;
use aes_gcm::KeyInit;
use crate::codec::bytes_of;
use crate::codec::compress;
use crate::codec::decompress;
use crate::codec::gzip_of;
use crate::codec::gunzip_of;
use crate::error::CryptoError;
use crate::error::Error;

verus! {

/// Length of an AES-128 key in bytes.
pub const KEY_LEN: usize = 16;

/// Length of an AES-GCM nonce in bytes.
pub const NONCE_LEN: usize = 12;

/// Length of the authentication tag that AES-GCM appends to the ciphertext.
pub const TAG_LEN: usize = 16;

/// The longest plaintext AES-GCM encrypts under one nonce (2^36 bytes).
pub const MAX_PLAINTEXT: u64 = 68719476736;

/// A key and a nonce for one encryption.
#[derive(Debug, Clone, PartialEq, Eq)]
pub struct KeyMaterial {
    pub key: Vec<u8>,
    pub nonce: Vec<u8>,
}

impl KeyMaterial {
    /// The key has 16 bytes and the nonce 12.
    pub open spec fn wf(&self) -> bool {
        self.key@.len() == KEY_LEN && self.nonce@.len() == NONCE_LEN
    }
}

/// The AES-128-GCM ciphertext (with its tag appended) of `plaintext` under `key` and `nonce`.
pub uninterp spec fn gcm_seal(key: Seq<u8>, nonce: Seq<u8>, plaintext: Seq<u8>) -> Seq<u8>;

/// What AES-128-GCM decryption of `ciphertext` under `key` and `nonce` yields,
/// or `None` where the tag does not verify.
pub uninterp spec fn gcm_open(key: Seq<u8>, nonce: Seq<u8>, ciphertext: Seq<u8>) -> Option<Seq<u8>>;

/// Relies on aes-gcm's `KeyInit::generate_key` with rand's `OsRng`: 16 bytes
/// from the operating system's secure generator (it panics if the OS cannot supply them).
#[verifier::external_body]
fn random_key() -> (r: Vec<u8>)
    ensures
        r@.len() == KEY_LEN,
{
    aes_gcm::Aes128Gcm::generate_key(rand::rngs::OsRng).to_vec()
}

/// Relies on aes-gcm's `AeadCore::generate_nonce` with rand's `OsRng`: 12 bytes
/// from the operating system's secure generator (it panics if the OS cannot supply them).
#[verifier::external_body]
fn random_nonce() -> (r: Vec<u8>)
    ensures
        r@.len() == NONCE_LEN,
{
    <aes_gcm::Aes128Gcm as aes_gcm::AeadCore>::generate_nonce(rand::rngs::OsRng).to_vec()
}

/// Relies on aes-gcm's `Aes128Gcm::encrypt` (through `Aead`): it refuses only a
/// plaintext over 2^36 bytes, and appends a 16-byte tag to the encrypted bytes.
#[verifier::external_body]
fn gcm_encrypt(key: &[u8], nonce: &[u8], plaintext: &[u8]) -> (r: Option<Vec<u8>>)
    requires
        key@.len() == KEY_LEN,
        nonce@.len() == NONCE_LEN,
    ensures
        bytes_of(r) == (if plaintext@.len() <= MAX_PLAINTEXT {
            Some(gcm_seal(key@, nonce@, plaintext@))
        } else {
            None
        }),
        r matches Some(c) ==> c@.len() == plaintext@.len() + TAG_LEN,
{
    let cipher = aes_gcm::Aes128Gcm::new_from_slice(key).ok()?;
    cipher.encrypt(aes_gcm::Nonce::from_slice(nonce), plaintext).ok()
}

/// Relies on aes-gcm's `Aes128Gcm::decrypt` (through `Aead`): it returns bytes
/// only when the tag verifies, those bytes encrypt back to the ciphertext, and
/// the ciphertext of any plaintext of allowed length decrypts back to it.
#[verifier::external_body]
fn gcm_decrypt(key: &[u8], nonce: &[u8], ciphertext: &[u8]) -> (r: Option<Vec<u8>>)
    requires
        key@.len() == KEY_LEN,
        nonce@.len() == NONCE_LEN,
    ensures
        bytes_of(r) == gcm_open(key@, nonce@, ciphertext@),
        r matches Some(p) ==> gcm_seal(key@, nonce@, p@) == ciphertext@,
        forall|p: Seq<u8>|
            p.len() <= MAX_PLAINTEXT && #[trigger] gcm_seal(key@, nonce@, p) == ciphertext@
                ==> bytes_of(r) == Some(p),
{
    let cipher = aes_gcm::Aes128Gcm::new_from_slice(key).ok()?;
    cipher.decrypt(aes_gcm::Nonce::from_slice(nonce), ciphertext).ok()
}

/// Draws a fresh key and nonce from the operating system's secure generator.
pub fn generate_key_material() -> (r: KeyMaterial)
    ensures
        r.wf(),
{
    KeyMaterial { key: random_key(), nonce: random_nonce() }
}

/// Whether a key and nonce have the lengths AES-128-GCM takes.
pub open spec fn valid_lengths(key: Seq<u8>, nonce: Seq<u8>) -> bool {
    key.len() == KEY_LEN && nonce.len() == NONCE_LEN
}

/// Authenticated encryption of `plaintext` under `key` and `nonce`.
pub fn encrypt(plaintext: &[u8], key: &[u8], nonce: &[u8]) -> (r: Result<Vec<u8>, CryptoError>)
    ensures
        !valid_lengths(key@, nonce@) ==> r == Err::<Vec<u8>, CryptoError>(CryptoError::InvalidKeyMaterial),
        valid_lengths(key@, nonce@) && plaintext@.len() > MAX_PLAINTEXT
            ==> r == Err::<Vec<u8>, CryptoError>(CryptoError::PlaintextTooLong),
        valid_lengths(key@, nonce@) && plaintext@.len() <= MAX_PLAINTEXT
            ==> (r matches Ok(c) && c@ == gcm_seal(key@, nonce@, plaintext@)
                && c@.len() == plaintext@.len() + TAG_LEN),
{
    if key.len() != KEY_LEN || nonce.len() != NONCE_LEN {
        return Err(CryptoError::InvalidKeyMaterial);
    }
    match gcm_encrypt(key, nonce, plaintext) {
        Some(c) => Ok(c),
        None => Err(CryptoError::PlaintextTooLong),
    }
}

/// Authenticated decryption. Bytes come back only when the tag verifies, and then
/// they are exactly a plaintext whose encryption is `ciphertext`; otherwise the
/// result is `AuthenticationFailed`, with no bytes at all.
pub fn decrypt(ciphertext: &[u8], key: &[u8], nonce: &[u8]) -> (r: Result<Vec<u8>, CryptoError>)
    ensures
        !valid_lengths(key@, nonce@) ==> r == Err::<Vec<u8>, CryptoError>(CryptoError::InvalidKeyMaterial),
        valid_lengths(key@, nonce@) ==> match gcm_open(key@, nonce@, ciphertext@) {
            Some(p) => r matches Ok(v) && v@ == p,
            None => r == Err::<Vec<u8>, CryptoError>(CryptoError::AuthenticationFailed),
        },
        r matches Ok(v) ==> gcm_seal(key@, nonce@, v@) == ciphertext@,
        forall|p: Seq<u8>|
            valid_lengths(key@, nonce@) && p.len() <= MAX_PLAINTEXT
                && #[trigger] gcm_seal(key@, nonce@, p) == ciphertext@
                ==> (r matches Ok(v) && v@ == p),
{
    if key.len() != KEY_LEN || nonce.len() != NONCE_LEN {
        return Err(CryptoError::InvalidKeyMaterial);
    }
    match gcm_decrypt(key, nonce, ciphertext) {
        Some(p) => Ok(p),
        None => Err(CryptoError::AuthenticationFailed),
    }
}

/// The bytes stored on disk for `plaintext`: its ciphertext, gzip-compressed.
pub open spec fn stored_form(km: KeyMaterial, plaintext: Seq<u8>) -> Seq<u8> {
    gzip_of(gcm_seal(km.key@, km.nonce@, plaintext))
}

/// Encrypts `plaintext` and compresses the ciphertext, giving the bytes to store.
pub fn seal_contents(plaintext: &[u8], km: &KeyMaterial) -> (r: Result<Vec<u8>, Error>)
    ensures
        !km.wf() ==> r == Err::<Vec<u8>, Error>(Error::Crypto(CryptoError::InvalidKeyMaterial)),
        km.wf() && plaintext@.len() > MAX_PLAINTEXT
            ==> r == Err::<Vec<u8>, Error>(Error::Crypto(CryptoError::PlaintextTooLong)),
        km.wf() && plaintext@.len() <= MAX_PLAINTEXT
            ==> (r matches Ok(v) && v@ == stored_form(*km, plaintext@)),
{
    match encrypt(plaintext, km.key.as_slice(), km.nonce.as_slice()) {
        Ok(c) => Ok(compress(c.as_slice())),
        Err(e) => Err(Error::Crypto(e)),
    }
}

/// Decompresses stored bytes and decrypts them. The stored form of any plaintext
/// under the same key material comes back as that plaintext.
pub fn open_contents(stored: &[u8], km: &KeyMaterial) -> (r: Result<Vec<u8>, Error>)
    ensures
        match gunzip_of(stored@) {
            None => r == Err::<Vec<u8>, Error>(Error::Codec),
            Some(c) => if !km.wf() {
                r == Err::<Vec<u8>, Error>(Error::Crypto(CryptoError::InvalidKeyMaterial))
            } else {
                match gcm_open(km.key@, km.nonce@, c) {
                    Some(p) => r matches Ok(v) && v@ == p,
                    None => r == Err::<Vec<u8>, Error>(Error::Crypto(CryptoError::AuthenticationFailed)),
                }
            },
        },
        forall|p: Seq<u8>|
            km.wf() && p.len() <= MAX_PLAINTEXT && #[trigger] stored_form(*km, p) == stored@
                ==> (r matches Ok(v) && v@ == p),
{
    match decompress(stored) {
        Ok(c) => match decrypt(c.as_slice(), km.key.as_slice(), km.nonce.as_slice()) {
            Ok(p) => Ok(p),
            Err(e) => Err(Error::Crypto(e)),
        },
        Err(e) => {
            proof {
                if km.wf() {
                    assert forall|p: Seq<u8>| p.len() <= MAX_PLAINTEXT
                        && #[trigger] stored_form(*km, p) == stored@ implies false by {
                        assert(gzip_of(gcm_seal(km.key@, km.nonce@, p)) == stored@);
                    }
                }
            }
            Err(e)
        },
    }
}

} // verus!
