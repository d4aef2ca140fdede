//! Envelope encryption of secret values.
//!
//! Every call to [`encrypt`] derives a fresh key from the shared secret and a
//! random salt, encrypts under a random nonce, and stores salt and nonce beside
//! the ciphertext, so that [`decrypt`] needs only the shared secret.

use crate::blob::{parse, wire, BlobView, EncryptedBlob, NONCE_LEN, SALT_LEN};
use crate::primitives::{
    argon2_key, cipher_accepts, derive_key, open, opened, random_bytes, random_nonce,
    seal, sealed, KDF_MAX_LEN, TAG_LEN,
};
use vstd::prelude::*;
use vstd::string::*;

verus! {

/// Length of the derived key as the key derivation takes it.
pub const DERIVED_KEY_LEN: u32 = 32;

/// Why a value could not be encrypted.
#[derive(Debug)]
pub enum EncryptError {
    /// The key derivation refused the shared secret.
    Hashing(argon2::Error),
    /// The cipher refused the plaintext.
    Cipher(chacha20poly1305::Error),
}

/// Why an envelope could not be opened.
#[derive(Debug)]
pub enum DecryptError {
    /// The key derivation refused the shared secret.
    Hashing(argon2::Error),
    /// The bytes do not hold an envelope.
    Deserialize,
    /// The tag does not match: the envelope was changed or the shared secret is
    /// not the one it was made with.
    Cipher(chacha20poly1305::Error),
}

/// The kinds of [`DecryptError`], without what the outside crates attach.
pub enum DecryptFailure {
    Hashing,
    Deserialize,
    Cipher,
}

impl EncryptError {
    /// What a person reads about this error.
    pub open spec fn spec_message(&self) -> Seq<char> {
        match self {
            EncryptError::Hashing(_) => "failed to generate key from encryption key"@,
            EncryptError::Cipher(_) => "error running chacha20poly1305 on data"@,
        }
    }

    /// What a person reads about this error.
    pub fn message(&self) -> (res: String)
        ensures
            res@ == self.spec_message(),
    {
        match self {
            EncryptError::Hashing(_) => "failed to generate key from encryption key".to_owned(),
            EncryptError::Cipher(_) => "error running chacha20poly1305 on data".to_owned(),
        }
    }
}

impl DecryptError {
    /// The kind of this error.
    pub open spec fn kind(self) -> DecryptFailure {
        match self {
            DecryptError::Hashing(_) => DecryptFailure::Hashing,
            DecryptError::Deserialize => DecryptFailure::Deserialize,
            DecryptError::Cipher(_) => DecryptFailure::Cipher,
        }
    }

    /// What a person reads about this error.
    pub open spec fn spec_message(&self) -> Seq<char> {
        match self {
            DecryptError::Hashing(_) => "failed to generate decryption key from encryption key"@,
            DecryptError::Deserialize => "failed to deserialize encrypted file from binary format"@,
            DecryptError::Cipher(_) => {
                "error decrypting with chacha20poly1305 (possibly invalid encryption key)"@
            },
        }
    }

    /// What a person reads about this error.
    pub fn message(&self) -> (res: String)
        ensures
            res@ == self.spec_message(),
    {
        match self {
            DecryptError::Hashing(_) => {
                "failed to generate decryption key from encryption key".to_owned()
            },
            DecryptError::Deserialize => {
                "failed to deserialize encrypted file from binary format".to_owned()
            },
            DecryptError::Cipher(_) => {
                "error decrypting with chacha20poly1305 (possibly invalid encryption key)"
                    .to_owned()
            },
        }
    }
}

/// `bytes` is the envelope that encrypting `plaintext` under `secret` gives
/// when `salt` and `nonce` are the random values drawn.
pub open spec fn encrypts_with(
    bytes: Seq<u8>,
    plaintext: Seq<u8>,
    secret: Seq<u8>,
    salt: Seq<u8>,
    nonce: Seq<u8>,
) -> bool {
    let key = argon2_key(secret, salt, DERIVED_KEY_LEN);
    let data = sealed(key, nonce, plaintext);
    &&& salt.len() == SALT_LEN
    &&& nonce.len() == NONCE_LEN
    &&& secret.len() <= KDF_MAX_LEN
    &&& cipher_accepts(plaintext)
    &&& data.len() == plaintext.len() + TAG_LEN
    &&& opened(key, nonce, data) == Some(plaintext)
    &&& bytes == wire(BlobView { data, nonce, salt })
}

/// `bytes` is an envelope that [`encrypt`] can return for `plaintext` and
/// `secret`.
pub open spec fn is_encryption(bytes: Seq<u8>, plaintext: Seq<u8>, secret: Seq<u8>) -> bool {
    exists|salt: Seq<u8>, nonce: Seq<u8>| #[trigger]
        encrypts_with(bytes, plaintext, secret, salt, nonce)
}

/// What [`decrypt`] returns for `bytes` and `secret`.
pub open spec fn decryption(bytes: Seq<u8>, secret: Seq<u8>) -> Result<Seq<u8>, DecryptFailure> {
    match parse(bytes) {
        None => Err(DecryptFailure::Deserialize),
        Some(blob) => {
            if secret.len() > KDF_MAX_LEN {
                Err(DecryptFailure::Hashing)
            } else {
                let key = argon2_key(secret, blob.salt, DERIVED_KEY_LEN);
                match opened(key, blob.nonce, blob.data) {
                    Some(plaintext) => Ok(plaintext),
                    None => Err(DecryptFailure::Cipher),
                }
            }
        },
    }
}

/// Decrypting what was encrypted, with the same shared secret, gives the
/// plaintext back.
pub proof fn lemma_decrypt_inverts_encrypt(bytes: Seq<u8>, plaintext: Seq<u8>, secret: Seq<u8>)
    requires
        is_encryption(bytes, plaintext, secret),
    ensures
        decryption(bytes, secret) == Ok::<Seq<u8>, DecryptFailure>(plaintext),
{
    let (salt, nonce) = choose|salt: Seq<u8>, nonce: Seq<u8>| #[trigger]
        encrypts_with(bytes, plaintext, secret, salt, nonce);
    let key = argon2_key(secret, salt, DERIVED_KEY_LEN);
    let blob = BlobView { data: sealed(key, nonce, plaintext), nonce, salt };
    crate::blob::lemma_parse_wire(blob, Seq::empty());
}

/// Whatever decryption returns as plaintext is what the cipher authenticated
/// and opened under the key derived from the secret and the stored salt: no
/// byte of the envelope reaches the caller as plaintext on any other way.
pub proof fn lemma_plaintext_is_authenticated(bytes: Seq<u8>, secret: Seq<u8>)
    requires
        decryption(bytes, secret) is Ok,
    ensures
        parse(bytes) is Some,
        opened(
            argon2_key(secret, parse(bytes)->Some_0.salt, DERIVED_KEY_LEN),
            parse(bytes)->Some_0.nonce,
            parse(bytes)->Some_0.data,
        ) == Some(decryption(bytes, secret)->Ok_0),
{
}

/// Encrypts `data` under a key derived from `encryption_key`.
///
/// Succeeds unless the shared secret is too long for the key derivation or the
/// data too long for the cipher. The envelope returned holds a salt and a nonce
/// drawn for this call, and [`decrypt`] opens it with the same shared secret.
pub fn encrypt(data: &[u8], encryption_key: &[u8]) -> (res: Result<Vec<u8>, EncryptError>)
    ensures
        res is Ok <==> encryption_key.len() <= KDF_MAX_LEN && cipher_accepts(data@),
        res matches Ok(bytes) ==> is_encryption(bytes@, data@, encryption_key@),
        res matches Err(e) ==> (e is Hashing <==> encryption_key.len() > KDF_MAX_LEN),
{
    let salt = random_bytes(SALT_LEN);
    let nonce = random_nonce();
    encrypt_with(data, encryption_key, salt, nonce)
}

/// Encrypts `data` under a key derived from `encryption_key` and `salt`, with
/// `nonce`, and puts the three parts into an envelope.
///
/// The envelope depends on the four arguments alone. Whoever calls this answers
/// for a salt and a nonce that were drawn for this one call.
pub fn encrypt_with(data: &[u8], encryption_key: &[u8], salt: Vec<u8>, nonce: Vec<u8>) -> (res:
    Result<Vec<u8>, EncryptError>)
    requires
        salt.len() == SALT_LEN,
        nonce.len() == NONCE_LEN,
    ensures
        res is Ok <==> encryption_key.len() <= KDF_MAX_LEN && cipher_accepts(data@),
        res matches Ok(bytes) ==> encrypts_with(bytes@, data@, encryption_key@, salt@, nonce@),
        res matches Err(e) ==> (e is Hashing <==> encryption_key.len() > KDF_MAX_LEN),
{
    let key = match derive_key(encryption_key, salt.as_slice(), DERIVED_KEY_LEN) {
        Ok(key) => key,
        Err(e) => {
            return Err(EncryptError::Hashing(e));
        },
    };
    let ciphertext = match seal(key.as_slice(), nonce.as_slice(), data) {
        Ok(ciphertext) => ciphertext,
        Err(e) => {
            return Err(EncryptError::Cipher(e));
        },
    };
    let blob = EncryptedBlob { data: ciphertext, nonce, salt };
    Ok(blob.to_bytes())
}

/// Opens an envelope made by [`encrypt`].
///
/// Fails with `Deserialize` where `data` holds no envelope, with `Hashing`
/// where the shared secret is too long for the key derivation, and with
/// `Cipher` where the tag does not match. Otherwise returns the plaintext,
/// which is one tag shorter than the ciphertext in the envelope; no part of a
/// plaintext is ever returned with an error.
pub fn decrypt(data: &[u8], encryption_key: &[u8]) -> (res: Result<Vec<u8>, DecryptError>)
    ensures
        res matches Ok(plaintext) ==> decryption(data@, encryption_key@) == Ok::<
            Seq<u8>,
            DecryptFailure,
        >(plaintext@),
        res matches Err(e) ==> decryption(data@, encryption_key@) == Err::<
            Seq<u8>,
            DecryptFailure,
        >(e.kind()),
        res matches Ok(plaintext) ==> plaintext.len() + TAG_LEN == parse(data@)->Some_0.data.len(),
{
    let decoded = match EncryptedBlob::from_bytes(data) {
        Some(decoded) => decoded,
        None => {
            return Err(DecryptError::Deserialize);
        },
    };
    let key = match derive_key(encryption_key, decoded.salt.as_slice(), DERIVED_KEY_LEN) {
        Ok(key) => key,
        Err(e) => {
            return Err(DecryptError::Hashing(e));
        },
    };
    match open(key.as_slice(), decoded.nonce.as_slice(), decoded.data.as_slice()) {
        Ok(text) => Ok(text),
        Err(e) => Err(DecryptError::Cipher(e)),
    }
}

/// Why a file could not be encrypted.
#[derive(Debug)]
pub enum FsEncryptError {
    /// Reading or writing failed; the text says how.
    Fs(String),
    /// The contents could not be encrypted.
    Encrypt(EncryptError),
}

/// Why a file could not be decrypted.
#[derive(Debug)]
pub enum FsDecryptError {
    /// Reading or writing failed; the text says how.
    Fs(String),
    /// The contents could not be decrypted.
    Decrypt(DecryptError),
}

/// Why a directory could not be encrypted.
#[derive(Debug)]
pub enum EncryptDirectoryError {
    /// The archive could not be made; the text says why.
    Archive(String),
    /// The path ends in no name under which to archive the directory.
    NoFilename,
    /// The archive could not be encrypted.
    Encrypt(EncryptError),
    /// The encrypted archive could not be written; the text says why.
    Fs(String),
}

/// Why a directory could not be decrypted.
#[derive(Debug)]
pub enum DecryptDirectoryError {
    /// The encrypted archive could not be read; the text says why.
    Fs(String),
    /// The archive could not be decrypted.
    Decrypt(DecryptError),
    /// The archive could not be unpacked; the text says why.
    Archive(String),
}

/// `prefix` followed by `detail`.
fn with_detail(prefix: &str, detail: &str) -> (res: String)
    ensures
        res@ == prefix@ + detail@,
{
    let mut message = prefix.to_owned();
    message.append(detail);
    message
}

impl FsEncryptError {
    /// What a person reads about this error.
    pub open spec fn spec_message(&self) -> Seq<char> {
        match self {
            FsEncryptError::Fs(detail) => "error writing data to file system: "@ + detail@,
            FsEncryptError::Encrypt(inner) => "error encrypting file contents: "@
                + inner.spec_message(),
        }
    }

    /// What a person reads about this error.
    pub fn message(&self) -> (res: String)
        ensures
            res@ == self.spec_message(),
    {
        match self {
            FsEncryptError::Fs(detail) => with_detail(
                "error writing data to file system: ",
                detail.as_str(),
            ),
            FsEncryptError::Encrypt(inner) => with_detail(
                "error encrypting file contents: ",
                inner.message().as_str(),
            ),
        }
    }
}

impl FsDecryptError {
    /// What a person reads about this error.
    pub open spec fn spec_message(&self) -> Seq<char> {
        match self {
            FsDecryptError::Fs(_) => "error writing encrypted data to file system"@,
            FsDecryptError::Decrypt(_) => "error decrypting file contents"@,
        }
    }

    /// What a person reads about this error.
    pub fn message(&self) -> (res: String)
        ensures
            res@ == self.spec_message(),
    {
        match self {
            FsDecryptError::Fs(_) => "error writing encrypted data to file system".to_owned(),
            FsDecryptError::Decrypt(_) => "error decrypting file contents".to_owned(),
        }
    }
}

impl EncryptDirectoryError {
    /// What a person reads about this error.
    pub open spec fn spec_message(&self) -> Seq<char> {
        match self {
            EncryptDirectoryError::Archive(detail) => "error creating archive to encrypt: "@
                + detail@,
            EncryptDirectoryError::NoFilename => "no filename found for path"@,
            EncryptDirectoryError::Encrypt(inner) => "error encrypting archive contents: "@
                + inner.spec_message(),
            EncryptDirectoryError::Fs(detail) => "error writing encrypted archive to file: "@
                + detail@,
        }
    }

    /// What a person reads about this error.
    pub fn message(&self) -> (res: String)
        ensures
            res@ == self.spec_message(),
    {
        match self {
            EncryptDirectoryError::Archive(detail) => with_detail(
                "error creating archive to encrypt: ",
                detail.as_str(),
            ),
            EncryptDirectoryError::NoFilename => "no filename found for path".to_owned(),
            EncryptDirectoryError::Encrypt(inner) => with_detail(
                "error encrypting archive contents: ",
                inner.message().as_str(),
            ),
            EncryptDirectoryError::Fs(detail) => with_detail(
                "error writing encrypted archive to file: ",
                detail.as_str(),
            ),
        }
    }
}

impl DecryptDirectoryError {
    /// What a person reads about this error.
    pub open spec fn spec_message(&self) -> Seq<char> {
        match self {
            DecryptDirectoryError::Fs(detail) => "error reading encrypted data from filesystem: "@
                + detail@,
            DecryptDirectoryError::Decrypt(inner) => "error decrypting archive: "@
                + inner.spec_message(),
            DecryptDirectoryError::Archive(detail) => "error unpacking archive: "@ + detail@,
        }
    }

    /// What a person reads about this error.
    pub fn message(&self) -> (res: String)
        ensures
            res@ == self.spec_message(),
    {
        match self {
            DecryptDirectoryError::Fs(detail) => with_detail(
                "error reading encrypted data from filesystem: ",
                detail.as_str(),
            ),
            DecryptDirectoryError::Decrypt(inner) => with_detail(
                "error decrypting archive: ",
                inner.message().as_str(),
            ),
            DecryptDirectoryError::Archive(detail) => with_detail(
                "error unpacking archive: ",
                detail.as_str(),
            ),
        }
    }
}

/// Encrypts the contents of a file, to be written where the caller chooses.
pub fn encrypt_file(contents: &[u8], encryption_key: &[u8]) -> (res: Result<
    Vec<u8>,
    FsEncryptError,
>)
    ensures
        res is Ok <==> encryption_key.len() <= KDF_MAX_LEN && cipher_accepts(contents@),
        res matches Ok(bytes) ==> is_encryption(bytes@, contents@, encryption_key@),
        res matches Err(e) ==> e is Encrypt,
{
    match encrypt(contents, encryption_key) {
        Ok(bytes) => Ok(bytes),
        Err(e) => Err(FsEncryptError::Encrypt(e)),
    }
}

/// Decrypts the contents of an encrypted file.
pub fn decrypt_file(contents: &[u8], encryption_key: &[u8]) -> (res: Result<
    Vec<u8>,
    FsDecryptError,
>)
    ensures
        res matches Ok(plaintext) ==> decryption(contents@, encryption_key@) == Ok::<
            Seq<u8>,
            DecryptFailure,
        >(plaintext@),
        res matches Err(e) ==> (e matches FsDecryptError::Decrypt(inner) && decryption(
            contents@,
            encryption_key@,
        ) == Err::<Seq<u8>, DecryptFailure>(inner.kind())),
{
    match decrypt(contents, encryption_key) {
        Ok(bytes) => Ok(bytes),
        Err(e) => Err(FsDecryptError::Decrypt(e)),
    }
}

/// The name under which a directory is archived: the last part of its path,
/// which the caller has looked up. A path that ends in no name is refused.
pub fn archive_name(file_name: Option<&str>) -> (res: Result<&str, EncryptDirectoryError>)
    ensures
        file_name is None ==> (res matches Err(e) && e is NoFilename),
        file_name matches Some(name) ==> (res matches Ok(n) && n@ == name@),
{
    match file_name {
        Some(name) => Ok(name),
        None => Err(EncryptDirectoryError::NoFilename),
    }
}

/// Encrypts the archive of a directory.
pub fn encrypt_directory(archive: &[u8], encryption_key: &[u8]) -> (res: Result<
    Vec<u8>,
    EncryptDirectoryError,
>)
    ensures
        res is Ok <==> encryption_key.len() <= KDF_MAX_LEN && cipher_accepts(archive@),
        res matches Ok(bytes) ==> is_encryption(bytes@, archive@, encryption_key@),
        res matches Err(e) ==> e is Encrypt,
{
    match encrypt(archive, encryption_key) {
        Ok(bytes) => Ok(bytes),
        Err(e) => Err(EncryptDirectoryError::Encrypt(e)),
    }
}

/// Decrypts an encrypted directory into its archive, to be unpacked by the
/// caller.
pub fn decrypt_directory(contents: &[u8], encryption_key: &[u8]) -> (res: Result<
    Vec<u8>,
    DecryptDirectoryError,
>)
    ensures
        res matches Ok(archive) ==> decryption(contents@, encryption_key@) == Ok::<
            Seq<u8>,
            DecryptFailure,
        >(archive@),
        res matches Err(e) ==> (e matches DecryptDirectoryError::Decrypt(inner) && decryption(
            contents@,
            encryption_key@,
        ) == Err::<Seq<u8>, DecryptFailure>(inner.kind())),
{
    match decrypt(contents, encryption_key) {
        Ok(bytes) => Ok(bytes),
        Err(e) => Err(DecryptDirectoryError::Decrypt(e)),
    }
}

} // verus!
