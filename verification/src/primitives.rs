//! The cryptographic primitives the library is built on.
//!
//! Nothing in this file is proved: each function hands its arguments to an
//! outside crate, and its contract records what that crate's source and
//! documentation say. Everything the rest of the library proves about
//! ciphertexts and keys rests on these contracts.

use chacha20poly1305::aead::generic_array::GenericArray;
use chacha20poly1305::aead::rand_core::RngCore;
use chacha20poly1305::aead::{Aead, AeadCore, KeyInit, OsRng};
use chacha20poly1305::ChaCha20Poly1305;
use sha2::{Digest, Sha256};
use vstd::prelude::*;

verus! {

/// Length of a key of the authenticated cipher, in bytes.
pub const KEY_LEN: usize = 32;

/// Length of the tag the authenticated cipher appends, in bytes.
pub const TAG_LEN: usize = 16;

/// The largest password, salt or output length the key derivation takes.
pub const KDF_MAX_LEN: usize = 0xFFFF_FFFF;

/// The shortest salt the key derivation takes.
pub const KDF_MIN_SALT_LEN: usize = 8;

/// The shortest output the key derivation gives.
pub const KDF_MIN_OUT_LEN: u32 = 4;

/// Number of 64-byte blocks at which the authenticated cipher refuses a message.
pub const CIPHER_MAX_BLOCKS: usize = 0xFFFF_FFFF;

#[verifier::external_type_specification]
#[verifier::external_body]
pub struct ExKdfError(argon2::Error);

#[verifier::external_type_specification]
#[verifier::external_body]
pub struct ExCipherError(chacha20poly1305::Error);

/// The Argon2 hash of `password` under `salt`, `out_len` bytes long, with the
/// default cost parameters of the `argon2` crate.
pub uninterp spec fn argon2_key(password: Seq<u8>, salt: Seq<u8>, out_len: u32) -> Seq<u8>;

/// The ChaCha20-Poly1305 ciphertext of `plaintext` under `key` and `nonce`,
/// with no associated data, followed by its tag.
pub uninterp spec fn sealed(key: Seq<u8>, nonce: Seq<u8>, plaintext: Seq<u8>) -> Seq<u8>;

/// The plaintext that ChaCha20-Poly1305 decryption gives for `ciphertext` under
/// `key` and `nonce`, or `None` where the tag does not match.
pub uninterp spec fn opened(key: Seq<u8>, nonce: Seq<u8>, ciphertext: Seq<u8>) -> Option<Seq<u8>>;

/// The SHA-256 digest of `data`.
pub uninterp spec fn sha256(data: Seq<u8>) -> Seq<u8>;

/// What bcrypt says of `password` against the stored `hash`: whether they
/// match, or `None` where `hash` is no bcrypt hash.
pub uninterp spec fn bcrypt_verdict(password: Seq<char>, hash: Seq<char>) -> Option<bool>;

/// The lowest and the highest cost bcrypt takes.
pub const BCRYPT_MIN_COST: u32 = 4;

pub const BCRYPT_MAX_COST: u32 = 31;

/// The decimal digit of a value below ten.
pub open spec fn decimal_digit(n: int) -> char {
    (48 + n) as char
}

/// `hash` is written as bcrypt writes a hash made at `cost`: 60 characters that
/// start with the version `2b` and the cost in two digits, each between
/// dollar signs.
pub open spec fn written_at_cost(hash: Seq<char>, cost: u32) -> bool {
    &&& hash.len() == 60
    &&& hash[0] == '$'
    &&& hash[1] == '2'
    &&& hash[2] == 'b'
    &&& hash[3] == '$'
    &&& hash[4] == decimal_digit(cost as int / 10)
    &&& hash[5] == decimal_digit(cost as int % 10)
    &&& hash[6] == '$'
}

/// The inputs on which the key derivation succeeds.
pub open spec fn kdf_accepts(password: Seq<u8>, salt: Seq<u8>, out_len: u32) -> bool {
    &&& password.len() <= KDF_MAX_LEN
    &&& KDF_MIN_SALT_LEN <= salt.len() <= KDF_MAX_LEN
    &&& out_len >= KDF_MIN_OUT_LEN
}

/// The messages the authenticated cipher takes.
pub open spec fn cipher_accepts(message: Seq<u8>) -> bool {
    message.len() / 64 < CIPHER_MAX_BLOCKS
}

/// Calls `OsRng.fill_bytes` on a buffer of `len` bytes. The bytes come from the
/// operating system's random source, so only their number is known.
#[verifier::external_body]
pub(crate) fn random_bytes(len: usize) -> (res: Vec<u8>)
    ensures
        res.len() == len,
{
    let mut bytes = vec![0u8; len];
    OsRng.fill_bytes(&mut bytes);
    bytes
}

/// Calls `ChaCha20Poly1305::generate_nonce` with the operating system's random
/// source. Only the nonce's length is known.
#[verifier::external_body]
pub(crate) fn random_nonce() -> (res: Vec<u8>)
    ensures
        res.len() == 12,
{
    ChaCha20Poly1305::generate_nonce(OsRng).to_vec()
}

/// Calls `argon2::hash_raw` with the crate's default configuration but for the
/// output length. It fails exactly where the password, the salt or the output
/// length is outside the limits the crate checks, and otherwise returns
/// `out_len` bytes that depend on the three arguments alone.
#[verifier::external_body]
pub(crate) fn derive_key(password: &[u8], salt: &[u8], out_len: u32) -> (res: Result<
    Vec<u8>,
    argon2::Error,
>)
    ensures
        res is Ok <==> kdf_accepts(password@, salt@, out_len),
        res matches Ok(key) ==> key@ == argon2_key(password@, salt@, out_len) && key.len()
            == out_len,
{
    let config = argon2::Config { hash_length: out_len, ..Default::default() };
    argon2::hash_raw(password, salt, &config)
}

/// Calls `ChaCha20Poly1305::encrypt` with no associated data. It fails exactly
/// where the message has too many blocks for the cipher's counter. The
/// ciphertext carries its 16-byte tag at the end and decrypts to the plaintext
/// under the same key and nonce.
#[verifier::external_body]
pub(crate) fn seal(key: &[u8], nonce: &[u8], plaintext: &[u8]) -> (res: Result<
    Vec<u8>,
    chacha20poly1305::Error,
>)
    requires
        key.len() == KEY_LEN,
        nonce.len() == 12,
    ensures
        res is Ok <==> cipher_accepts(plaintext@),
        res matches Ok(out) ==> out@ == sealed(key@, nonce@, plaintext@),
        res matches Ok(out) ==> out.len() == plaintext.len() + TAG_LEN,
        res matches Ok(out) ==> opened(key@, nonce@, out@) == Some(plaintext@),
{
    let cipher = ChaCha20Poly1305::new(GenericArray::from_slice(key));
    cipher.encrypt(GenericArray::from_slice(nonce), plaintext)
}

/// Calls `ChaCha20Poly1305::decrypt` with no associated data. It succeeds
/// exactly where the tag at the end of the ciphertext matches, and then returns
/// the plaintext, which is one tag shorter than the ciphertext.
#[verifier::external_body]
pub(crate) fn open(key: &[u8], nonce: &[u8], ciphertext: &[u8]) -> (res: Result<
    Vec<u8>,
    chacha20poly1305::Error,
>)
    requires
        key.len() == KEY_LEN,
        nonce.len() == 12,
    ensures
        res is Ok <==> opened(key@, nonce@, ciphertext@) is Some,
        res matches Ok(plaintext) ==> opened(key@, nonce@, ciphertext@) == Some(plaintext@)
            && plaintext.len() + TAG_LEN == ciphertext.len(),
{
    let cipher = ChaCha20Poly1305::new(GenericArray::from_slice(key));
    cipher.decrypt(GenericArray::from_slice(nonce), ciphertext)
}

/// Calls `Sha256::digest`. The digest has 32 bytes and depends on the data
/// alone.
#[verifier::external_body]
pub(crate) fn sha256_digest(data: &[u8]) -> (res: Vec<u8>)
    ensures
        res@ == sha256(data@),
        res.len() == 32,
{
    Sha256::digest(data).to_vec()
}

/// Calls `bcrypt::hash`, which draws a random salt. Of the hash returned this
/// is known: `bcrypt::verify` accepts the same password against it, and its
/// text names the version and the cost it was made at. A cost outside the
/// range bcrypt takes is refused.
#[verifier::external_body]
pub(crate) fn bcrypt_hash(password: &str, cost: u32) -> (res: Result<String, String>)
    ensures
        res matches Ok(hash) ==> bcrypt_verdict(password@, hash@) == Some(true),
        res matches Ok(hash) ==> written_at_cost(hash@, cost),
        res is Ok ==> BCRYPT_MIN_COST <= cost <= BCRYPT_MAX_COST,
{
    bcrypt::hash(password, cost).map_err(|e| e.to_string())
}

/// Calls `bcrypt::verify`. The answer depends on the password and the hash
/// alone; an error means that the hash could not be read.
#[verifier::external_body]
pub(crate) fn bcrypt_verify(password: &str, hash: &str) -> (res: Result<bool, String>)
    ensures
        res is Ok <==> bcrypt_verdict(password@, hash@) is Some,
        res matches Ok(matches) ==> bcrypt_verdict(password@, hash@) == Some(matches),
{
    bcrypt::verify(password, hash).map_err(|e| e.to_string())
}

} // verus!
