use base64::engine::general_purpose::STANDARD;
use base64::Engine;
use ec_secrets::auth::{
    authorize_user, check_form, check_password, hash_password, issue, issue_for, session_nonce,
    verify_token, TokenError, ISSUER, TOKEN_TTL,
};
use ec_secrets::keys::{
    decode_keys, key_pair_document, KeyPairOutcome, KeyRepository, SigningKeys, KEY_PAIR_ID,
};
use ec_secrets::models::{KeyPairDocument, User, UserCredentials};
use pasetors::claims::ClaimsValidationRules;
use pasetors::keys::{AsymmetricKeyPair, AsymmetricPublicKey, Generate};
use pasetors::token::UntrustedToken;
use pasetors::version4::V4;
use pasetors::Public;

const NOW: i64 = 1_700_000_000;

fn new_pair() -> KeyPairDocument {
    let repo = KeyRepository::new();
    match repo.get_or_create_key_pair(None, "2024-01-01T00:00:00+00:00").unwrap() {
        KeyPairOutcome::Created(pair) => pair,
        KeyPairOutcome::Existing(_) => panic!("nothing was there to find"),
    }
}

fn new_keys() -> SigningKeys {
    decode_keys(&new_pair()).unwrap()
}

#[test]
fn created_key_pair_decodes_and_matches() {
    let pair = new_pair();
    assert_eq!(pair.created_at, "2024-01-01T00:00:00+00:00");
    let secret = STANDARD.decode(&pair.private_key).unwrap();
    let public = STANDARD.decode(&pair.public_key).unwrap();
    assert_eq!(secret.len(), 64);
    assert_eq!(public.len(), 32);
    assert_eq!(&secret[32..], &public[..]);
    let keys = decode_keys(&pair).unwrap();
    assert_eq!(keys.secret, secret);
    assert_eq!(keys.public, public);
}

#[test]
fn two_created_key_pairs_differ() {
    let a = new_pair();
    let b = new_pair();
    assert_ne!(a.private_key, b.private_key);
    assert_ne!(a.public_key, b.public_key);
}

#[test]
fn existing_key_pair_is_returned_unchanged() {
    let repo = KeyRepository::new();
    let first = repo.get_or_create_key_pair(None, "t0").unwrap();
    let stored = match &first {
        KeyPairOutcome::Created(pair) => pair.clone(),
        KeyPairOutcome::Existing(_) => panic!("nothing was there to find"),
    };
    let kept = repo.settle(first, stored.clone());
    let second = repo.get_or_create_key_pair(Some(kept.clone()), "t1").unwrap();
    match second {
        KeyPairOutcome::Existing(pair) => {
            assert_eq!(pair.private_key, kept.private_key);
            assert_eq!(pair.public_key, kept.public_key);
            assert_eq!(pair.created_at, "t0");
        }
        KeyPairOutcome::Created(_) => panic!("a second pair was made"),
    }
}

#[test]
fn a_concurrent_winner_is_the_settled_pair() {
    let repo = KeyRepository::new();
    let ours = repo.get_or_create_key_pair(None, "t0").unwrap();
    let theirs = new_pair();
    let kept = repo.settle(ours, theirs.clone());
    assert_eq!(kept.private_key, theirs.private_key);
    assert_eq!(kept.public_key, theirs.public_key);
}

#[test]
fn key_pair_has_a_fixed_identifier() {
    assert_eq!(KEY_PAIR_ID, "signing-key-pair");
}

#[test]
fn keys_that_are_not_base64_do_not_decode() {
    let mut pair = new_pair();
    pair.private_key = "not base64!".to_string();
    assert!(decode_keys(&pair).is_err());
    let mut pair = new_pair();
    pair.public_key = "@@@".to_string();
    assert!(decode_keys(&pair).is_err());
}

#[test]
fn keys_of_wrong_length_or_content_do_not_decode() {
    let good = new_pair();
    let mut short = good.clone();
    short.private_key = STANDARD.encode([7u8; 63]);
    assert_eq!(decode_keys(&short).unwrap_err(), "Key");
    let mut zero_seed = good.clone();
    zero_seed.private_key = STANDARD.encode([0u8; 64]);
    assert_eq!(decode_keys(&zero_seed).unwrap_err(), "Key");
    let mut mismatched = good.clone();
    let mut secret = STANDARD.decode(&good.private_key).unwrap();
    secret[40] ^= 1;
    mismatched.private_key = STANDARD.encode(&secret);
    assert_eq!(decode_keys(&mismatched).unwrap_err(), "Key");
    let mut short_public = good.clone();
    short_public.public_key = STANDARD.encode([1u8; 31]);
    assert_eq!(decode_keys(&short_public).unwrap_err(), "Key");
}

#[test]
fn nonce_is_the_hex_digest_of_subject_and_secret() {
    assert_eq!(
        session_nonce("alice@example.com", "deployment-secret"),
        "d6941b88063b28ce04cb9e4e303e24889d13fda999201bd029d766547276f1e1"
    );
    assert_eq!(
        session_nonce("", ""),
        "e3b0c44298fc1c149afbf4c8996fb92427ae41e4649b934ca495991b7852b855"
    );
}

#[test]
fn issued_token_verifies_with_its_subject() {
    let keys = new_keys();
    let token = issue("alice@example.com", "deployment-secret", &keys, NOW).unwrap();
    assert!(token.starts_with("v4.public."));
    assert!(token.starts_with(ec_secrets::paseto::PUBLIC_HEADER));
    assert!(token.chars().all(|c| c.is_ascii_alphanumeric() || c == '-' || c == '_' || c == '.'));
    let claims = verify_token(&token, &keys.public, NOW).unwrap();
    assert_eq!(claims.subject.as_deref(), Some("alice@example.com"));
    assert_eq!(claims.issuer.as_deref(), Some("https://www.embraconnect.com"));
    assert_eq!(claims.issuer.as_deref(), Some(ISSUER));
    assert_eq!(claims.expiration, NOW + 28_800);
    assert_eq!(claims.expiration, NOW + TOKEN_TTL);
    assert_eq!(
        claims.nonce.as_deref(),
        Some("d6941b88063b28ce04cb9e4e303e24889d13fda999201bd029d766547276f1e1")
    );
}

#[test]
fn token_is_valid_up_to_its_expiration_and_expired_after() {
    let keys = new_keys();
    let token = issue("alice@example.com", "s", &keys, NOW).unwrap();
    assert!(verify_token(&token, &keys.public, NOW + TOKEN_TTL - 1).is_ok());
    assert!(verify_token(&token, &keys.public, NOW + TOKEN_TTL).is_ok());
    assert_eq!(
        verify_token(&token, &keys.public, NOW + TOKEN_TTL + 1).unwrap_err(),
        TokenError::Expired
    );
    assert_eq!(
        verify_token(&token, &keys.public, i64::MAX).unwrap_err(),
        TokenError::Expired
    );
}

#[test]
fn expiration_is_written_as_rfc3339() {
    let keys = new_keys();
    let token = issue("alice@example.com", "s", &keys, NOW).unwrap();
    let untrusted = UntrustedToken::<Public, V4>::try_from(token.as_str()).unwrap();
    let key = AsymmetricPublicKey::<V4>::from(&keys.public).unwrap();
    let trusted = pasetors::version4::PublicToken::verify(&key, &untrusted, None, None).unwrap();
    let claims = pasetors::claims::Claims::from_string(trusted.payload()).unwrap();
    assert_eq!(
        claims.get_claim("exp").unwrap().as_str().unwrap(),
        "2023-11-15T06:13:20+00:00"
    );
    assert_eq!(claims.get_claim("sub").unwrap().as_str().unwrap(), "alice@example.com");
    assert!(claims.get_claim("iat").is_some());
    assert!(claims.get_claim("nbf").is_some());
}

#[test]
fn token_issued_now_passes_the_default_rules_of_the_token_scheme() {
    let keys = new_keys();
    let now = std::time::SystemTime::now()
        .duration_since(std::time::UNIX_EPOCH)
        .unwrap()
        .as_secs() as i64;
    let token = issue("alice@example.com", "s", &keys, now).unwrap();
    let untrusted = UntrustedToken::<Public, V4>::try_from(token.as_str()).unwrap();
    let key = AsymmetricPublicKey::<V4>::from(&keys.public).unwrap();
    let rules = ClaimsValidationRules::new();
    let trusted = pasetors::public::verify(&key, &untrusted, &rules, None, None).unwrap();
    let claims = trusted.payload_claims().unwrap();
    assert_eq!(claims.get_claim("sub").unwrap().as_str().unwrap(), "alice@example.com");
}

#[test]
fn token_under_another_key_has_an_invalid_signature() {
    let keys = new_keys();
    let other = new_keys();
    let token = issue("alice@example.com", "s", &keys, NOW).unwrap();
    assert_eq!(
        verify_token(&token, &other.public, NOW).unwrap_err(),
        TokenError::SignatureInvalid
    );
    assert_eq!(
        verify_token(&token, &[1u8; 5], NOW).unwrap_err(),
        TokenError::SignatureInvalid
    );
}

#[test]
fn tampered_token_has_an_invalid_signature() {
    let keys = new_keys();
    let token = issue("alice@example.com", "s", &keys, NOW).unwrap();
    let mut chars: Vec<char> = token.chars().collect();
    let at = "v4.public.".len() + 3;
    chars[at] = if chars[at] == 'A' { 'B' } else { 'A' };
    let tampered: String = chars.into_iter().collect();
    assert_eq!(
        verify_token(&tampered, &keys.public, NOW).unwrap_err(),
        TokenError::SignatureInvalid
    );
}

#[test]
fn text_that_is_no_token_is_malformed() {
    let keys = new_keys();
    for text in ["", "garbage", "v4.local.abc", "v4.public.", "v4.public.a.b.c.d", "v4.public.!!!"] {
        assert_eq!(
            verify_token(text, &keys.public, NOW).unwrap_err(),
            TokenError::MalformedToken
        );
    }
}

#[test]
fn signed_payload_without_claims_is_a_missing_payload() {
    let pair = AsymmetricKeyPair::<V4>::generate().unwrap();
    let not_json = pasetors::version4::PublicToken::sign(&pair.secret, b"hello", None, None).unwrap();
    assert_eq!(
        verify_token(&not_json, pair.public.as_bytes(), NOW).unwrap_err(),
        TokenError::MissingPayload
    );
    let no_exp =
        pasetors::version4::PublicToken::sign(&pair.secret, b"{\"sub\":\"a\"}", None, None).unwrap();
    assert_eq!(
        verify_token(&no_exp, pair.public.as_bytes(), NOW).unwrap_err(),
        TokenError::MissingPayload
    );
    let no_sub = pasetors::version4::PublicToken::sign(
        &pair.secret,
        b"{\"exp\":\"2023-11-15T06:13:20+00:00\"}",
        None,
        None,
    )
    .unwrap();
    let claims = verify_token(&no_sub, pair.public.as_bytes(), NOW).unwrap();
    assert_eq!(claims.subject, None);
    assert_eq!(claims.nonce, None);
    assert_eq!(claims.expiration, NOW + 28_800);
}

#[test]
fn issue_refuses_an_empty_subject_and_times_that_cannot_be_written() {
    let keys = new_keys();
    assert_eq!(issue("", "s", &keys, NOW).unwrap_err(), "InvalidClaim");
    assert_eq!(issue("a", "s", &keys, i64::MAX).unwrap_err(), "InvalidClaim");
    assert_eq!(issue("a", "s", &keys, i64::MIN).unwrap_err(), "InvalidClaim");
    assert!(issue("a", "s", &keys, 253_402_300_799 - 28_800 + 1).is_err());
    assert!(issue("a", "s", &keys, -28_801).is_err());
    assert!(issue("a", "s", &keys, 253_402_300_799 - 28_800).is_ok());
    assert!(issue("a", "s", &keys, -28_800).is_ok());
}

#[test]
fn hashed_password_is_a_bcrypt_hash_of_the_password() {
    let hash = hash_password("hunter2".to_string()).unwrap();
    assert_ne!(hash, "hunter2");
    assert!(hash.starts_with("$2b$12$"));
    assert_eq!(hash.len(), 60);
    assert_eq!(hash.parse::<bcrypt::HashParts>().unwrap().get_cost(), 12);
    assert!(bcrypt::verify("hunter2", &hash).unwrap());
    assert!(!bcrypt::verify("hunter3", &hash).unwrap());
}

fn user_with_password(password: &str) -> User {
    User {
        id: "0123456789abcdef01234567".to_string(),
        email: "alice@example.com".to_string(),
        password: bcrypt::hash(password, 4).unwrap(),
        created_at: "2024-01-01T00:00:00+00:00".to_string(),
    }
}

#[test]
fn authorize_user_issues_a_token_for_the_right_password() {
    let pair = new_pair();
    let user = user_with_password("hunter2");
    let credentials = UserCredentials {
        email: "alice@example.com".to_string(),
        password: "hunter2".to_string(),
    };
    let token = authorize_user(&user, &credentials, &pair, "auth-key", NOW).unwrap();
    let keys = decode_keys(&pair).unwrap();
    let claims = verify_token(&token, &keys.public, NOW + 1).unwrap();
    assert_eq!(claims.subject.as_deref(), Some("alice@example.com"));
    assert_eq!(claims.nonce, Some(session_nonce("alice@example.com", "auth-key")));
}

#[test]
fn authorize_user_refuses_a_wrong_password() {
    let pair = new_pair();
    let user = user_with_password("hunter2");
    let credentials = UserCredentials {
        email: "alice@example.com".to_string(),
        password: "hunter3".to_string(),
    };
    assert_eq!(
        authorize_user(&user, &credentials, &pair, "auth-key", NOW).unwrap_err(),
        "Invalid credentials"
    );
}

#[test]
fn authorize_user_fails_on_an_unreadable_hash_or_key_pair() {
    let pair = new_pair();
    let mut user = user_with_password("hunter2");
    let credentials = UserCredentials {
        email: "alice@example.com".to_string(),
        password: "hunter2".to_string(),
    };
    let mut broken = pair.clone();
    broken.private_key = "???".to_string();
    assert!(authorize_user(&user, &credentials, &broken, "auth-key", NOW).is_err());
    user.password = "plain".to_string();
    let e = authorize_user(&user, &credentials, &pair, "auth-key", NOW).unwrap_err();
    assert_ne!(e, "Invalid credentials");
}

#[test]
fn key_pair_document_holds_both_keys_in_base64() {
    let secret: Vec<u8> = (0u8..64).collect();
    let public: Vec<u8> = (32u8..64).collect();
    let document = key_pair_document(&secret, &public, "2024-01-01T00:00:00+00:00");
    assert_eq!(document.private_key, STANDARD.encode(&secret));
    assert_eq!(document.public_key, STANDARD.encode(&public));
    assert_eq!(document.private_key.len(), 88);
    assert_eq!(document.public_key.len(), 44);
    assert_eq!(STANDARD.decode(&document.private_key).unwrap(), secret);
    assert_eq!(STANDARD.decode(&document.public_key).unwrap(), public);
    assert_eq!(document.created_at, "2024-01-01T00:00:00+00:00");
    let empty = key_pair_document(&[], &[1], "t");
    assert_eq!((empty.private_key.as_str(), empty.public_key.as_str()), ("", "AQ=="));
}

#[test]
fn form_of_a_token_is_checked_without_a_key() {
    let keys = new_keys();
    let token = issue("alice@example.com", "s", &keys, NOW).unwrap();
    assert!(check_form(&token).is_ok());
    for text in ["", "garbage", "v4.local.abc", "v4.public.", "v4.public.!!!"] {
        assert_eq!(check_form(text).unwrap_err(), TokenError::MalformedToken);
    }
}

#[test]
fn password_is_checked_before_a_token_is_issued() {
    let pair = new_pair();
    let user = user_with_password("hunter2");
    let right = UserCredentials {
        email: "alice@example.com".to_string(),
        password: "hunter2".to_string(),
    };
    let wrong = UserCredentials {
        email: "alice@example.com".to_string(),
        password: "hunter3".to_string(),
    };
    assert_eq!(check_password(&user, &wrong).unwrap_err(), "Invalid credentials");
    let checked = check_password(&user, &right).unwrap();
    assert_eq!(checked.email(), "alice@example.com");
    let token = issue_for(&checked, &pair, "auth-key", NOW).unwrap();
    let keys = decode_keys(&pair).unwrap();
    let claims = verify_token(&token, &keys.public, NOW).unwrap();
    assert_eq!(claims.subject.as_deref(), Some("alice@example.com"));
    let mut broken = pair.clone();
    broken.public_key = "".to_string();
    assert!(issue_for(&checked, &broken, "auth-key", NOW).is_err());
    let mut unreadable = user_with_password("hunter2");
    unreadable.password = "plain".to_string();
    assert_ne!(check_password(&unreadable, &right).unwrap_err(), "Invalid credentials");
}

#[test]
fn a_token_that_cannot_be_issued_fails_as_an_invalid_claim() {
    let pair = new_pair();
    let mut user = user_with_password("hunter2");
    user.email = "".to_string();
    let nameless = UserCredentials { email: "".to_string(), password: "hunter2".to_string() };
    assert_eq!(
        authorize_user(&user, &nameless, &pair, "auth-key", NOW).unwrap_err(),
        "InvalidClaim"
    );
    let checked = check_password(&user, &nameless).unwrap();
    assert_eq!(issue_for(&checked, &pair, "auth-key", NOW).unwrap_err(), "InvalidClaim");

    let user = user_with_password("hunter2");
    let right = UserCredentials {
        email: "alice@example.com".to_string(),
        password: "hunter2".to_string(),
    };
    assert_eq!(
        authorize_user(&user, &right, &pair, "auth-key", i64::MAX).unwrap_err(),
        "InvalidClaim"
    );
    let checked = check_password(&user, &right).unwrap();
    assert_eq!(issue_for(&checked, &pair, "auth-key", -28_801).unwrap_err(), "InvalidClaim");
}

#[test]
fn binding_value_is_carried_under_the_claim_nonce() {
    let keys = new_keys();
    let token = issue("alice@example.com", "s", &keys, NOW).unwrap();
    let untrusted = UntrustedToken::<Public, V4>::try_from(token.as_str()).unwrap();
    let key = AsymmetricPublicKey::<V4>::from(&keys.public).unwrap();
    let trusted = pasetors::version4::PublicToken::verify(&key, &untrusted, None, None).unwrap();
    let claims = pasetors::claims::Claims::from_string(trusted.payload()).unwrap();
    assert_eq!(ec_secrets::auth::NONCE_CLAIM, "nonce");
    assert_eq!(
        claims.get_claim("nonce").unwrap().as_str().unwrap(),
        session_nonce("alice@example.com", "s")
    );
    assert_eq!(claims.get_claim("iss").unwrap().as_str().unwrap(), ISSUER);
}
