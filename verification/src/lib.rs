//! Key material, envelope encryption and bearer tokens for a store of
//! user-owned secrets, with the rules that scope every record to its owner.

pub mod auth;
pub mod blob;
pub mod catchers;
pub mod cipher;
pub mod encoding;
pub mod errors;
pub mod keys;
pub mod models;
pub mod paseto;
pub mod primitives;
pub mod routes;
pub mod session;
pub mod text;
pub mod timestamps;
pub mod users;
pub mod vault;
