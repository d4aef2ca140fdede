//! The records the service keeps and the bodies it answers with, as plain
//! values.

use vstd::prelude::*;

verus! {

/// The deployment's signing key pair as it is stored: both keys in standard
/// base64.
#[derive(Debug, Clone)]
pub struct KeyPairDocument {
    pub private_key: String,
    pub public_key: String,
    pub created_at: String,
}

/// A registered user. `password` holds the password's hash.
#[derive(Debug, Clone)]
pub struct User {
    pub id: String,
    pub email: String,
    pub password: String,
    pub created_at: String,
}

/// What a caller presents to log in or to register.
#[derive(Debug, Clone)]
pub struct UserCredentials {
    pub email: String,
    pub password: String,
}

/// A stored secret. `value` holds the encrypted envelope in base64, or the
/// plaintext once an authorised read has opened it.
#[derive(Debug, Clone)]
pub struct Vault {
    pub id: String,
    pub key: String,
    pub value: String,
    pub created_by: String,
    pub created_at: String,
}

/// A secret as a caller submits it.
#[derive(Debug)]
pub struct Secret {
    pub key: String,
    pub value: String,
}

#[derive(Debug)]
pub struct CreateSecretResponse {
    pub status: u16,
    pub message: String,
}

#[derive(Debug)]
pub struct DeleteSecretResponse {
    pub status: u16,
    pub message: String,
}

#[derive(Debug)]
pub struct ErrorResponse {
    pub status: u16,
    pub message: String,
}

#[derive(Debug)]
pub struct AuthModuleResponse {
    pub message: String,
}

#[derive(Debug)]
pub struct SetupResponse {
    pub status: u16,
    pub message: String,
}

#[derive(Debug)]
pub struct LoginResponse {
    pub status: u16,
    pub token: String,
}

#[derive(Debug)]
pub struct DeleteUserResponse {
    pub status: u16,
    pub message: String,
}

/// HTTP status codes the service answers with.
pub const STATUS_OK: u16 = 200;

pub const STATUS_BAD_REQUEST: u16 = 400;

pub const STATUS_UNAUTHORIZED: u16 = 401;

pub const STATUS_NOT_FOUND: u16 = 404;

pub const STATUS_CONFLICT: u16 = 409;

pub const STATUS_INTERNAL_SERVER_ERROR: u16 = 500;

impl ErrorResponse {
    /// An error body with the given status and message.
    pub fn new(status: u16, message: &str) -> (res: ErrorResponse)
        ensures
            res.status == status,
            res.message@ == message@,
    {
        ErrorResponse { status, message: message.to_string() }
    }
}

} // verus!
