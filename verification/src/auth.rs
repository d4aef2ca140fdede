//! Bearer tokens: issued at login, signed with the deployment's key pair, and
//! verified on every later call without any state kept between calls.

use crate::encoding::{hex_lower, to_hex_lower};
use crate::errors::ErrorKind;
use crate::keys::{decode_keys, decoded, SigningKeys};
use crate::models::{KeyPairDocument, User, UserCredentials};
use crate::paseto::{
    carries, check_token_form, has_token_text, payload_claims, public_half, read_claims,
    sign_claims,
    token_payload, token_well_formed, verified_payload, RawClaimsView,
};
use crate::primitives::{
    bcrypt_hash, bcrypt_verdict, bcrypt_verify, sha256, sha256_digest, written_at_cost,
};
use crate::text::text_of;
use crate::timestamps::{
    format_rfc3339, parse_rfc3339, rfc3339_seconds, rfc3339_text, writable, MAX_TIMESTAMP,
};
use vstd::prelude::*;
use vstd::slice::*;
use vstd::string::*;
use vstd::utf8::*;

verus! {

/// Seconds for which a token is valid: eight hours.
pub const TOKEN_TTL: i64 = 28_800;

/// The issuer every token names.
pub const ISSUER: &'static str = "https://www.embraconnect.com";

/// The name of the claim that holds a token's binding value.
pub const NONCE_CLAIM: &'static str = "nonce";

/// The work factor of password hashing.
pub const PASSWORD_COST: u32 = 12;

/// Why a token was not accepted.
#[derive(Debug, Clone, Copy, PartialEq, Eq)]
pub enum TokenError {
    /// The text has not the form of a token.
    MalformedToken,
    /// The signature does not belong to the payload and the public key.
    SignatureInvalid,
    /// The expiration has passed.
    Expired,
    /// The payload holds no readable claims or no expiration.
    MissingPayload,
}

impl TokenError {
    /// What the operator reads about this error.
    pub open spec fn spec_message(self) -> Seq<char> {
        match self {
            TokenError::MalformedToken => "TokenFormat"@,
            TokenError::SignatureInvalid => "TokenValidation"@,
            TokenError::Expired => "ClaimValidation(Exp)"@,
            TokenError::MissingPayload => "Token has no payload"@,
        }
    }

    /// What the operator reads about this error.
    pub fn message(self) -> (res: String)
        ensures
            res@ == self.spec_message(),
    {
        match self {
            TokenError::MalformedToken => "TokenFormat".to_owned(),
            TokenError::SignatureInvalid => "TokenValidation".to_owned(),
            TokenError::Expired => "ClaimValidation(Exp)".to_owned(),
            TokenError::MissingPayload => "Token has no payload".to_owned(),
        }
    }

    /// The kind a caller is told: the same for every failure of a token, so
    /// that a caller does not learn which it was.
    pub open spec fn spec_kind(self) -> ErrorKind {
        ErrorKind::Auth
    }

    /// The kind a caller is told.
    #[verifier::when_used_as_spec(spec_kind)]
    pub fn kind(self) -> (res: ErrorKind)
        ensures
            res == ErrorKind::Auth,
    {
        ErrorKind::Auth
    }
}

/// The claims of a verified token. Only the expiration has been checked; the
/// other claims are as the issuer wrote them.
#[derive(Debug)]
pub struct TokenClaims {
    pub subject: Option<String>,
    pub issuer: Option<String>,
    pub expiration: i64,
    pub nonce: Option<String>,
}

/// Mathematical content of [`TokenClaims`].
pub struct TokenClaimsView {
    pub subject: Option<Seq<char>>,
    pub issuer: Option<Seq<char>>,
    pub expiration: int,
    pub nonce: Option<Seq<char>>,
}

impl View for TokenClaims {
    type V = TokenClaimsView;

    open spec fn view(&self) -> TokenClaimsView {
        TokenClaimsView {
            subject: text_of(self.subject),
            issuer: text_of(self.issuer),
            expiration: self.expiration as int,
            nonce: text_of(self.nonce),
        }
    }
}

/// The value that binds a token to a subject and a deployment: the SHA-256
/// digest, in lowercase hexadecimal, of the subject's bytes followed by the
/// deployment secret's bytes.
pub open spec fn nonce_for(subject: Seq<char>, deployment_secret: Seq<char>) -> Seq<char> {
    hex_lower(sha256(encode_utf8(subject) + encode_utf8(deployment_secret)))
}

/// The claims that a token issued at `now` carries.
pub open spec fn issued_claims(subject: Seq<char>, nonce: Seq<char>, now: int) -> RawClaimsView {
    RawClaimsView {
        subject: Some(subject),
        issuer: Some(ISSUER@),
        expiration: Some(rfc3339_text(now + TOKEN_TTL)),
        extra: Some(nonce),
    }
}

/// `token` is one that [`issue`] can return at the time `now` for `subject`
/// and `nonce`, signed by the secret key that `public_key` belongs to.
pub open spec fn issued(
    token: Seq<char>,
    public_key: Seq<u8>,
    subject: Seq<char>,
    nonce: Seq<char>,
    now: int,
) -> bool {
    &&& writable(now + TOKEN_TTL)
    &&& rfc3339_seconds(rfc3339_text(now + TOKEN_TTL)) == Some(now + TOKEN_TTL)
    &&& has_token_text(token)
    &&& carries(public_key, token, NONCE_CLAIM@, issued_claims(subject, nonce, now))
}

/// What [`verify_token`] returns for `token` under `public_key` at the time
/// `now`.
pub open spec fn verification(public_key: Seq<u8>, token: Seq<char>, now: int) -> Result<
    TokenClaimsView,
    TokenError,
> {
    if !token_well_formed(token) {
        Err(TokenError::MalformedToken)
    } else {
        match token_payload(public_key, token) {
            None => Err(TokenError::SignatureInvalid),
            Some(payload) => match payload_claims(payload, NONCE_CLAIM@) {
                None => Err(TokenError::MissingPayload),
                Some(claims) => match claims.expiration {
                    None => Err(TokenError::MissingPayload),
                    Some(text) => match rfc3339_seconds(text) {
                        None => Err(TokenError::MissingPayload),
                        Some(expiration) => if now > expiration {
                            Err(TokenError::Expired)
                        } else {
                            Ok(
                                TokenClaimsView {
                                    subject: claims.subject,
                                    issuer: claims.issuer,
                                    expiration,
                                    nonce: claims.extra,
                                },
                            )
                        },
                    },
                },
            },
        }
    }
}

/// A token verifies under the matching public key until it expires, and then
/// gives the subject it was issued for; one second past its expiration it is
/// refused as expired.
pub proof fn lemma_token_lifecycle(
    token: Seq<char>,
    public_key: Seq<u8>,
    subject: Seq<char>,
    nonce: Seq<char>,
    issued_at: int,
    now: int,
)
    requires
        issued(token, public_key, subject, nonce, issued_at),
    ensures
        now <= issued_at + TOKEN_TTL ==> verification(public_key, token, now) == Ok::<
            TokenClaimsView,
            TokenError,
        >(
            TokenClaimsView {
                subject: Some(subject),
                issuer: Some(ISSUER@),
                expiration: issued_at + TOKEN_TTL,
                nonce: Some(nonce),
            },
        ),
        now > issued_at + TOKEN_TTL ==> verification(public_key, token, now) == Err::<
            TokenClaimsView,
            TokenError,
        >(TokenError::Expired),
{
}

/// No token can be issued for `subject` at the time `now`: the subject is
/// empty, or the expiration cannot be written.
pub open spec fn unissuable(subject: Seq<char>, now: int) -> bool {
    !writable(now + TOKEN_TTL) || subject.len() == 0
}

/// Computes the binding value of a token.
pub fn session_nonce(subject: &str, deployment_secret: &str) -> (res: String)
    ensures
        res@ == nonce_for(subject@, deployment_secret@),
{
    let mut data: Vec<u8> = slice_to_vec(subject.as_bytes());
    data.extend_from_slice(deployment_secret.as_bytes());
    assert(data@ =~= encode_utf8(subject@) + encode_utf8(deployment_secret@));
    let digest = sha256_digest(data.as_slice());
    to_hex_lower(digest.as_slice())
}

/// Issues a token for `subject` that expires eight hours after `now`.
///
/// Fails with `InvalidClaim` where the expiration cannot be written or the
/// subject is empty. On every other input the token scheme decides: what its
/// signing returns is returned as it is.
pub fn issue(subject: &str, deployment_secret: &str, keys: &SigningKeys, now: i64) -> (res: Result<
    String,
    String,
>)
    requires
        keys.wf(),
    ensures
        res matches Ok(token) ==> issued(
            token@,
            public_half(keys.secret@),
            subject@,
            nonce_for(subject@, deployment_secret@),
            now as int,
        ),
        unissuable(subject@, now as int) ==> (res matches Err(e) && e@ == "InvalidClaim"@),
{
    if now < -TOKEN_TTL || now > MAX_TIMESTAMP - TOKEN_TTL {
        return Err("InvalidClaim".to_owned());
    }
    if subject.is_empty() {
        return Err("InvalidClaim".to_owned());
    }
    let expiration = match format_rfc3339(now + TOKEN_TTL) {
        Some(text) => text,
        None => {
            return Err("InvalidClaim".to_owned());
        },
    };
    let nonce = session_nonce(subject, deployment_secret);
    sign_claims(
        keys.secret.as_slice(),
        subject,
        ISSUER,
        expiration.as_str(),
        NONCE_CLAIM,
        nonce.as_str(),
    )
}

/// Verifies `token` under `public_key` at the time `now`.
///
/// The form of the token is checked first, then its signature, then that its
/// payload holds claims with an expiration, and last that the expiration has
/// not passed. No other claim is checked.
pub fn verify_token(token: &str, public_key: &[u8], now: i64) -> (res: Result<
    TokenClaims,
    TokenError,
>)
    ensures
        res matches Ok(claims) ==> verification(public_key@, token@, now as int) == Ok::<
            TokenClaimsView,
            TokenError,
        >(claims@),
        res matches Err(e) ==> verification(public_key@, token@, now as int) == Err::<
            TokenClaimsView,
            TokenError,
        >(e),
{
    if check_token_form(token).is_err() {
        return Err(TokenError::MalformedToken);
    }
    let payload = match verified_payload(public_key, token) {
        Ok(payload) => payload,
        Err(_) => {
            return Err(TokenError::SignatureInvalid);
        },
    };
    let claims = match read_claims(payload.as_str(), NONCE_CLAIM) {
        Ok(claims) => claims,
        Err(_) => {
            return Err(TokenError::MissingPayload);
        },
    };
    let expiration = match &claims.expiration {
        Some(text) => match parse_rfc3339(text.as_str()) {
            Some(seconds) => seconds,
            None => {
                return Err(TokenError::MissingPayload);
            },
        },
        None => {
            return Err(TokenError::MissingPayload);
        },
    };
    if now > expiration {
        return Err(TokenError::Expired);
    }
    Ok(
        TokenClaims {
            subject: claims.subject,
            issuer: claims.issuer,
            expiration,
            nonce: claims.extra,
        },
    )
}

/// Checks the form of `token`, and nothing else. It takes no key, so that a
/// text that is no token can be refused before any key is looked up.
pub fn check_form(token: &str) -> (res: Result<(), TokenError>)
    ensures
        res is Ok <==> token_well_formed(token@),
        res matches Err(e) ==> e == TokenError::MalformedToken,
{
    match check_token_form(token) {
        Ok(()) => Ok(()),
        Err(_) => Err(TokenError::MalformedToken),
    }
}

/// Credentials whose password has been checked against a user's stored hash.
/// Only [`check_password`] makes one, so that a token can be issued for an
/// email only after the password for it was accepted.
#[derive(Debug)]
pub struct CheckedCredentials {
    email: String,
}

impl CheckedCredentials {
    /// The email the password was accepted for.
    pub closed spec fn subject(&self) -> Seq<char> {
        self.email@
    }

    /// The email the password was accepted for.
    pub fn email(&self) -> (res: &str)
        ensures
            res@ == self.subject(),
    {
        self.email.as_str()
    }
}

/// Checks the password of `credentials` against the stored hash of `user`.
///
/// A password that does not match fails with `Invalid credentials`, a stored
/// hash that cannot be read with what the hashing reports.
pub fn check_password(user: &User, credentials: &UserCredentials) -> (res: Result<
    CheckedCredentials,
    String,
>)
    ensures
        res is Ok <==> bcrypt_verdict(credentials.password@, user.password@) == Some(true),
        res matches Ok(checked) ==> checked.subject() == credentials.email@,
        bcrypt_verdict(credentials.password@, user.password@) == Some(false) ==> (res matches Err(
            e,
        ) && e@ == "Invalid credentials"@),
{
    match bcrypt_verify(credentials.password.as_str(), user.password.as_str()) {
        Ok(true) => Ok(CheckedCredentials { email: credentials.email.clone() }),
        Ok(false) => Err("Invalid credentials".to_owned()),
        Err(e) => Err(e),
    }
}

/// Issues a token for credentials whose password has been checked, signed
/// with the stored key pair.
///
/// A key pair that does not decode fails with what the outside crate
/// reports. Then an empty subject and an expiration that cannot be written
/// fail with `InvalidClaim`, and a refusal to sign with what the outside crate
/// reports.
pub fn issue_for(
    checked: &CheckedCredentials,
    key_pair: &KeyPairDocument,
    authentication_key: &str,
    now: i64,
) -> (res: Result<String, String>)
    ensures
        decoded(*key_pair) is None ==> res is Err,
        decoded(*key_pair) is Some && unissuable(checked.subject(), now as int) ==> (
        res matches Err(e) && e@ == "InvalidClaim"@),
        res matches Ok(token) ==> {
            &&& decoded(*key_pair) is Some
            &&& issued(
                token@,
                public_half(decoded(*key_pair)->Some_0.0),
                checked.subject(),
                nonce_for(checked.subject(), authentication_key@),
                now as int,
            )
        },
{
    let keys = match decode_keys(key_pair) {
        Ok(keys) => keys,
        Err(e) => {
            return Err(e);
        },
    };
    issue(checked.email(), authentication_key, &keys, now)
}

/// Checks the password of `credentials` against the stored hash of `user`
/// and, where it matches, issues a token for the email of `credentials`.
///
/// A password that does not match fails with `Invalid credentials`. A stored
/// hash that cannot be read, a key pair that does not decode and a refusal to
/// sign fail with what the outside crate reports.
pub fn authorize_user(
    user: &User,
    credentials: &UserCredentials,
    key_pair: &KeyPairDocument,
    authentication_key: &str,
    now: i64,
) -> (res: Result<String, String>)
    ensures
        bcrypt_verdict(credentials.password@, user.password@) == Some(false) ==> (res matches Err(
            e,
        ) && e@ == "Invalid credentials"@),
        bcrypt_verdict(credentials.password@, user.password@) == Some(true) ==> {
            &&& decoded(*key_pair) is None ==> res is Err
            &&& decoded(*key_pair) is Some && unissuable(credentials.email@, now as int) ==> (
            res matches Err(e) && e@ == "InvalidClaim"@)
        },
        res matches Ok(token) ==> {
            &&& bcrypt_verdict(credentials.password@, user.password@) == Some(true)
            &&& decoded(*key_pair) is Some
            &&& issued(
                token@,
                public_half(decoded(*key_pair)->Some_0.0),
                credentials.email@,
                nonce_for(credentials.email@, authentication_key@),
                now as int,
            )
        },
{
    let checked = match check_password(user, credentials) {
        Ok(checked) => checked,
        Err(e) => {
            return Err(e);
        },
    };
    issue_for(&checked, key_pair, authentication_key, now)
}

/// Hashes a password for storage at the work factor [`PASSWORD_COST`], with a
/// salt drawn for this call.
pub fn hash_password(password: String) -> (res: Result<String, String>)
    ensures
        res matches Ok(hash) ==> bcrypt_verdict(password@, hash@) == Some(true),
        res matches Ok(hash) ==> written_at_cost(hash@, PASSWORD_COST),
{
    bcrypt_hash(password.as_str(), PASSWORD_COST)
}

} // verus!
