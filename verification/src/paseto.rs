//! Signing and opening of public tokens.
//!
//! Nothing in this file is proved: each function hands its arguments to the
//! `pasetors` crate, and its contract records what that crate's source and
//! documentation say. What the library proves about tokens rests on these
//! contracts.

use pasetors::claims::Claims;
use pasetors::keys::{AsymmetricKeyPair, AsymmetricPublicKey, AsymmetricSecretKey, Generate};
use pasetors::token::UntrustedToken;
use pasetors::version4::{PublicToken, V4};
use crate::text::text_of;
use pasetors::Public;
use vstd::prelude::*;

verus! {

/// Length of a secret signing key: the 32-byte seed followed by the public key.
pub const SECRET_KEY_LEN: usize = 64;

/// Length of a public key and of the seed of a secret key.
pub const PUBLIC_KEY_LEN: usize = 32;

/// The claims of a token's payload that the library reads, each present only
/// where the payload holds it as a string: the three registered claims, and
/// one further claim under a name of the reader's choice.
#[derive(Debug)]
pub struct RawClaims {
    pub subject: Option<String>,
    pub issuer: Option<String>,
    pub expiration: Option<String>,
    pub extra: Option<String>,
}

/// Mathematical content of [`RawClaims`].
pub struct RawClaimsView {
    pub subject: Option<Seq<char>>,
    pub issuer: Option<Seq<char>>,
    pub expiration: Option<Seq<char>>,
    pub extra: Option<Seq<char>>,
}

impl View for RawClaims {
    type V = RawClaimsView;

    open spec fn view(&self) -> RawClaimsView {
        RawClaimsView {
            subject: text_of(self.subject),
            issuer: text_of(self.issuer),
            expiration: text_of(self.expiration),
            extra: text_of(self.extra),
        }
    }
}

/// Whether `bytes` are a secret key: 64 bytes whose second half is the public
/// key that belongs to the seed in the first half.
pub uninterp spec fn secret_key_accepted(bytes: Seq<u8>) -> bool;

/// Whether `token` has the form of a version 4 public token.
pub uninterp spec fn token_well_formed(token: Seq<char>) -> bool;

/// The payload of `token`, where its signature is valid under `public_key`.
pub uninterp spec fn token_payload(public_key: Seq<u8>, token: Seq<char>) -> Option<Seq<char>>;

/// The claims that the JSON text `payload` holds, where it is a claims object:
/// the three registered ones, and the one under the name `extra_name`.
pub uninterp spec fn payload_claims(payload: Seq<char>, extra_name: Seq<char>) -> Option<
    RawClaimsView,
>;

/// The seed of a secret key has a byte that is not zero.
pub open spec fn seed_nonzero(secret_key: Seq<u8>) -> bool {
    exists|i: int| 0 <= i < PUBLIC_KEY_LEN && i < secret_key.len() && #[trigger] secret_key[i] != 0
}

/// The public key that a secret key ends with.
pub open spec fn public_half(secret_key: Seq<u8>) -> Seq<u8> {
    secret_key.subrange(PUBLIC_KEY_LEN as int, SECRET_KEY_LEN as int)
}

/// The header that every version 4 public token starts with.
pub const PUBLIC_HEADER: &'static str = "v4.public.";

/// The characters a token is written in: those of URL-safe base64, and the
/// dot between its parts.
pub open spec fn is_token_char(c: char) -> bool {
    ||| 'A' <= c <= 'Z'
    ||| 'a' <= c <= 'z'
    ||| '0' <= c <= '9'
    ||| c == '-'
    ||| c == '_'
    ||| c == '.'
}

/// `token` is written as a signed token is: the header, and after it nothing
/// but the characters of a token.
pub open spec fn has_token_text(token: Seq<char>) -> bool {
    &&& PUBLIC_HEADER@.is_prefix_of(token)
    &&& forall|i: int| 0 <= i < token.len() ==> is_token_char(#[trigger] token[i])
}

/// `token` is signed for `public_key` and its payload holds `claims`, the
/// further claim under the name `extra_name`.
pub open spec fn carries(
    public_key: Seq<u8>,
    token: Seq<char>,
    extra_name: Seq<char>,
    claims: RawClaimsView,
) -> bool {
    &&& token_well_formed(token)
    &&& token_payload(public_key, token) is Some
    &&& payload_claims(token_payload(public_key, token)->Some_0, extra_name) == Some(claims)
}

/// Calls `AsymmetricSecretKey::<V4>::from`, which accepts 64 bytes whose second
/// half is the public key of the seed in the first half. The call would not
/// return for a seed of zeros, so such a key must not be put to it.
#[verifier::external_body]
pub(crate) fn check_secret_key(bytes: &[u8]) -> (res: Result<(), String>)
    requires
        bytes.len() == SECRET_KEY_LEN ==> seed_nonzero(bytes@),
    ensures
        res is Ok <==> secret_key_accepted(bytes@),
        res is Ok ==> bytes.len() == SECRET_KEY_LEN,
{
    AsymmetricSecretKey::<V4>::from(bytes).map(|_| ()).map_err(|e| e.to_string())
}

/// Calls `AsymmetricKeyPair::<V4>::generate`, which draws a random seed. The
/// secret key returned is an accepted one and ends with the public key
/// returned.
#[verifier::external_body]
pub(crate) fn generate_key_pair() -> (res: Result<(Vec<u8>, Vec<u8>), String>)
    ensures
        res matches Ok(pair) ==> secret_key_accepted(pair.0@) && seed_nonzero(pair.0@),
        res matches Ok(pair) ==> pair.0.len() == SECRET_KEY_LEN && pair.1@ == public_half(pair.0@),
{
    let pair = AsymmetricKeyPair::<V4>::generate().map_err(|e| e.to_string())?;
    Ok((pair.secret.as_bytes().to_vec(), pair.public.as_bytes().to_vec()))
}

/// Builds claims with `Claims::new` and its setters and calls
/// `pasetors::public::sign` without footer or implicit assertion. A token
/// that comes back is the header followed by URL-safe base64 without padding,
/// is well formed, verifies under the public half of the secret key, and its
/// payload holds the three registered claims given and the further claim
/// under the name given.
#[verifier::external_body]
pub(crate) fn sign_claims(
    secret_key: &[u8],
    subject: &str,
    issuer: &str,
    expiration: &str,
    extra_name: &str,
    extra: &str,
) -> (res: Result<String, String>)
    requires
        secret_key_accepted(secret_key@),
        seed_nonzero(secret_key@),
    ensures
        res matches Ok(token) ==> carries(
            public_half(secret_key@),
            token@,
            extra_name@,
            RawClaimsView {
                subject: Some(subject@),
                issuer: Some(issuer@),
                expiration: Some(expiration@),
                extra: Some(extra@),
            },
        ),
        res matches Ok(token) ==> has_token_text(token@),
        subject@.len() == 0 ==> res is Err,
{
    let key = AsymmetricSecretKey::<V4>::from(secret_key).map_err(|e| e.to_string())?;
    let mut claims = Claims::new().map_err(|e| e.to_string())?;
    claims.subject(subject).map_err(|e| e.to_string())?;
    claims.expiration(expiration).map_err(|e| e.to_string())?;
    claims.issuer(issuer).map_err(|e| e.to_string())?;
    claims.add_additional(extra_name, extra).map_err(|e| e.to_string())?;
    pasetors::public::sign(&key, &claims, None, None).map_err(|e| e.to_string())
}

/// Calls `UntrustedToken::<Public, V4>::try_from`, which reads the form of a
/// token and checks no signature.
#[verifier::external_body]
pub(crate) fn check_token_form(token: &str) -> (res: Result<(), String>)
    ensures
        res is Ok <==> token_well_formed(token@),
{
    UntrustedToken::<Public, V4>::try_from(token).map(|_| ()).map_err(|e| e.to_string())
}

/// Calls `PublicToken::verify` without footer or implicit assertion, which
/// checks the signature and nothing else, and returns the payload.
#[verifier::external_body]
pub(crate) fn verified_payload(public_key: &[u8], token: &str) -> (res: Result<String, String>)
    ensures
        res is Ok <==> token_payload(public_key@, token@) is Some,
        res matches Ok(payload) ==> token_payload(public_key@, token@) == Some(payload@),
{
    let key = AsymmetricPublicKey::<V4>::from(public_key).map_err(|e| e.to_string())?;
    let untrusted = UntrustedToken::<Public, V4>::try_from(token).map_err(|e| e.to_string())?;
    let trusted = PublicToken::verify(&key, &untrusted, None, None).map_err(|e| e.to_string())?;
    Ok(trusted.payload().to_string())
}

/// Calls `Claims::from_string` and reads the registered claims `sub`, `iss`
/// and `exp` and the claim `extra_name` with `get_claim`, each as a string or
/// as absent.
#[verifier::external_body]
pub(crate) fn read_claims(payload: &str, extra_name: &str) -> (res: Result<RawClaims, String>)
    ensures
        res is Ok <==> payload_claims(payload@, extra_name@) is Some,
        res matches Ok(claims) ==> payload_claims(payload@, extra_name@) == Some(claims@),
{
    let claims = Claims::from_string(payload).map_err(|e| e.to_string())?;
    let text = |name: &str| claims.get_claim(name).and_then(|v| v.as_str()).map(String::from);
    Ok(
        RawClaims {
            subject: text("sub"),
            issuer: text("iss"),
            expiration: text("exp"),
            extra: text(extra_name),
        },
    )
}

} // verus!
