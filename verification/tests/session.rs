use ec_secrets::auth::issue;
use ec_secrets::keys::{decode_keys, KeyPairOutcome, KeyRepository};
use ec_secrets::models::{KeyPairDocument, Secret, User, UserCredentials, Vault};
use ec_secrets::session::{secret_rows, user_rows, Auth, AuthenticatedUser, Session};
use ec_secrets::users::{UserFilter, UserRepository};
use ec_secrets::vault::VaultRepository;

const ID_A: &str = "0123456789abcdef01234567";
const ID_B: &str = "89abcdef0123456701234567";
const AT: &str = "2024-01-01T00:00:00+00:00";
const NOW: i64 = 1_700_000_000;

fn new_pair() -> KeyPairDocument {
    match KeyRepository::new().get_or_create_key_pair(None, AT).unwrap() {
        KeyPairOutcome::Created(pair) => pair,
        KeyPairOutcome::Existing(_) => panic!("nothing was there to find"),
    }
}

fn session_for(subject: &str) -> Session {
    let pair = new_pair();
    let keys = decode_keys(&pair).unwrap();
    let token = issue(subject, "k", &keys, NOW).unwrap();
    let mut session = Session::new();
    session.validate_session(&token, &pair, NOW).unwrap();
    session
}

fn user(id: &str, email: &str) -> User {
    User {
        id: id.to_string(),
        email: email.to_string(),
        password: "hash".to_string(),
        created_at: AT.to_string(),
    }
}

fn texts(rows: Vec<Vec<String>>) -> Vec<Vec<String>> {
    rows
}

fn row(cells: &[&str]) -> Vec<String> {
    cells.iter().map(|c| c.to_string()).collect()
}

#[test]
fn cli_login_keeps_a_token() {
    let pair = new_pair();
    let stored = User {
        id: ID_A.to_string(),
        email: "alice@example.com".to_string(),
        password: bcrypt::hash("hunter2", 4).unwrap(),
        created_at: AT.to_string(),
    };
    let creds = UserCredentials {
        email: "alice@example.com".to_string(),
        password: "hunter2".to_string(),
    };
    let mut auth = Auth::new();
    let token = auth.login(Some(&stored), &creds, &pair, "k", NOW).unwrap();
    let mut session = Session::new();
    session.validate_session(&token, &pair, NOW + 1).unwrap();
    assert_eq!(session.subject().unwrap(), "alice@example.com");
    assert_eq!(
        auth.login(None, &creds, &pair, "k", NOW).unwrap_err(),
        "Invalid login credentials"
    );
    let wrong = UserCredentials { email: creds.email.clone(), password: "x".to_string() };
    assert_eq!(
        auth.login(Some(&stored), &wrong, &pair, "k", NOW).unwrap_err(),
        "Invalid credentials"
    );
}

#[test]
fn session_validation_failures_leave_no_claims() {
    let pair = new_pair();
    let keys = decode_keys(&pair).unwrap();
    let token = issue("alice@example.com", "k", &keys, NOW).unwrap();
    let mut session = session_for("bob@example.com");
    assert_eq!(
        session.validate_session(&token, &pair, NOW + 28_801).unwrap_err(),
        "ClaimValidation(Exp)"
    );
    assert!(session.claims.is_none());
    assert_eq!(session.subject().unwrap_err(), "Session invalid. Please login.");
    assert_eq!(session.validate_session("junk", &pair, NOW).unwrap_err(), "TokenFormat");
    let other = new_pair();
    assert_eq!(session.validate_session(&token, &other, NOW).unwrap_err(), "TokenValidation");
    let mut broken = pair.clone();
    broken.public_key = "".to_string();
    assert!(session.validate_session(&token, &broken, NOW).is_err());
    assert!(session.validate_session(&token, &pair, NOW).is_ok());
    assert_eq!(session.subject().unwrap(), "alice@example.com");
}

#[test]
fn users_table() {
    let users = vec![user(ID_A, "a@example.com"), user(ID_B, "b@example.com")];
    assert_eq!(
        texts(user_rows(&users)),
        vec![
            row(&["Id", "Email", "CreatedAt"]),
            row(&[ID_A, "a@example.com", AT]),
            row(&[ID_B, "b@example.com", AT]),
        ]
    );
    assert_eq!(texts(user_rows(&vec![])), vec![row(&["Id", "Email", "CreatedAt"])]);
    let session = session_for("alice@example.com");
    assert_eq!(session.get_users(&users).unwrap().len(), 3);
    assert!(Session::new().get_users(&users).is_err());
}

#[test]
fn user_commands() {
    let repo = UserRepository::new();
    let session = session_for("alice@example.com");
    assert!(matches!(session.get_users_query(&repo, None), Ok(UserFilter::All)));
    assert!(matches!(session.get_users_query(&repo, Some(ID_A)), Ok(UserFilter::Id(id)) if id == ID_A));
    assert_eq!(session.get_users_query(&repo, Some("x")).unwrap_err(), "Invalid ID provided.");
    assert!(Session::new().get_users_query(&repo, None).is_err());
    assert!(matches!(session.delete_user(&repo, Some(ID_A)), Ok(UserFilter::Id(id)) if id == ID_A));
    assert_eq!(
        session.delete_user(&repo, None).unwrap_err(),
        "Please provide an id for the account to delete"
    );
    assert!(Session::new().delete_user(&repo, Some(ID_A)).is_err());
    let creds = UserCredentials { email: "new@example.com".to_string(), password: "pw".to_string() };
    let made = session.create_user(&repo, None, creds.clone(), ID_B, AT).unwrap();
    assert_eq!(made.email, "new@example.com");
    assert!(bcrypt::verify("pw", &made.password).unwrap());
    let taken = user(ID_A, "new@example.com");
    assert_eq!(
        session.create_user(&repo, Some(&taken), creds.clone(), ID_B, AT).unwrap_err(),
        "A user with this email already exists."
    );
    assert!(Session::new().create_user(&repo, None, creds, ID_B, AT).is_err());
}

#[test]
fn secret_commands() {
    let repo = VaultRepository::new("shared".to_string());
    let session = session_for("u1");
    let secret = Secret { key: "db_password".to_string(), value: "s3cr3t".to_string() };
    let record = session.create_secret(&repo, &secret, ID_A, AT).unwrap();
    assert_eq!(record.created_by, "u1");
    let foreign = repo.create_secret(ID_B, "k", "v", "u2", AT).unwrap();
    let found: Vec<Vault> = vec![record.clone(), foreign.clone()];

    let all = session.secrets_query(&repo, None).unwrap();
    assert_eq!((all.id, all.created_by.as_str()), (None, "u1"));
    assert_eq!(
        texts(session.list_secrets(&repo, None, &found).unwrap()),
        vec![row(&["Id", "Key", "Value"]), row(&[ID_A, "db_password", "s3cr3t"])]
    );
    assert_eq!(
        texts(session.list_secrets(&repo, None, &vec![foreign.clone()]).unwrap()),
        vec![row(&["Id", "Key", "Value"])]
    );
    assert_eq!(
        texts(session.list_secrets(&repo, None, &vec![]).unwrap()),
        vec![row(&["Id", "Key", "Value"])]
    );

    let one = session.secrets_query(&repo, Some(ID_A)).unwrap();
    assert_eq!((one.id.as_deref(), one.created_by.as_str()), (Some(ID_A), "u1"));
    assert_eq!(
        texts(session.list_secrets(&repo, Some(ID_A), &vec![record.clone()]).unwrap()),
        vec![row(&["Id", "Secret"]), row(&[ID_A, "s3cr3t"])]
    );
    assert_eq!(
        session.list_secrets(&repo, Some(ID_B), &vec![foreign]).unwrap_err(),
        "Invalid secret id"
    );
    assert_eq!(session.list_secrets(&repo, Some(ID_A), &vec![]).unwrap_err(), "Invalid secret id");
    assert_eq!(session.list_secrets(&repo, Some("x"), &found).unwrap_err(), "Invalid secret id");
    assert_eq!(session.secrets_query(&repo, Some("x")).unwrap_err(), "Invalid secret id");

    let doomed = session.delete_secret(&repo, ID_A).unwrap();
    assert_eq!((doomed.id.as_deref(), doomed.created_by.as_str()), (Some(ID_A), "u1"));
    assert_eq!(session.delete_secret(&repo, "").unwrap_err(), "Invalid secret id");

    let nobody = Session::new();
    assert_eq!(
        nobody.create_secret(&repo, &secret, ID_A, AT).unwrap_err(),
        "Session invalid. Please login."
    );
    assert!(nobody.list_secrets(&repo, None, &found).is_err());
    assert!(nobody.delete_secret(&repo, ID_A).is_err());
    assert_eq!(
        texts(secret_rows(&vec![record.clone()]))[1][1],
        "db_password"
    );
}

#[test]
fn combined_client_decides_like_the_session_with_its_own_messages() {
    let repo = VaultRepository::new("shared".to_string());
    let users = UserRepository::new();
    let pair = new_pair();
    let keys = decode_keys(&pair).unwrap();
    let token = issue("u1", "k", &keys, NOW).unwrap();
    let secret = Secret { key: "db_password".to_string(), value: "s3cr3t".to_string() };

    let mut client = AuthenticatedUser::new();
    assert_eq!(client.create_secret(&repo, &secret, ID_A, AT).unwrap_err(), "Invalid token");
    assert_eq!(client.list_secrets(&repo, None, &vec![]).unwrap_err(), "Invalid token");
    assert_eq!(client.delete_secret(&repo, ID_A).unwrap_err(), "Invalid token");
    assert_eq!(client.get_users(&vec![]).unwrap_err(), "Invalid token");
    assert_eq!(client.delete_user(&users, Some(ID_A)).unwrap_err(), "Invalid token");
    assert!(client.validate_token(&token, &pair, NOW + 28_801).is_err());
    assert!(client.session.claims.is_none());

    client.validate_token(&token, &pair, NOW).unwrap();
    let record = client.create_secret(&repo, &secret, ID_A, AT).unwrap();
    assert_eq!(record.created_by, "u1");
    assert_eq!(
        texts(client.list_secrets(&repo, None, &vec![]).unwrap()),
        vec![row(&["Id", "Key", "Value"])]
    );
    assert_eq!(
        texts(client.list_secrets(&repo, None, &vec![record.clone()]).unwrap()),
        vec![row(&["Id", "Key", "Value"]), row(&[ID_A, "db_password", "s3cr3t"])]
    );
    assert_eq!(
        texts(client.list_secrets(&repo, Some(ID_A), &vec![record]).unwrap()),
        vec![row(&["Id", "Secret"]), row(&[ID_A, "s3cr3t"])]
    );
    assert_eq!(client.list_secrets(&repo, Some(ID_B), &vec![]).unwrap_err(), "Invalid secret id");
    assert_eq!(client.delete_secret(&repo, ID_A).unwrap().created_by, "u1");
    assert_eq!(
        client.delete_user(&users, None).unwrap_err(),
        "Please provide an id for the account to delete"
    );
    assert_eq!(client.get_users(&vec![user(ID_A, "a@example.com")]).unwrap().len(), 2);
    let creds = UserCredentials { email: "n@example.com".to_string(), password: "pw".to_string() };
    assert_eq!(client.create_user(&users, None, creds.clone(), ID_B, AT).unwrap().email, "n@example.com");
    assert_eq!(
        client.login(None, &creds, &pair, "k", NOW).unwrap_err(),
        "Invalid login credentials"
    );
}

#[test]
fn user_creation_follows_the_outcome_of_the_hashing() {
    let repo = UserRepository::new();
    let session = session_for("alice@example.com");
    let made = session
        .create_user_with(&repo, None, "n@example.com", Ok("hash".to_string()), ID_B, AT)
        .unwrap();
    assert_eq!(
        (made.id.as_str(), made.email.as_str(), made.password.as_str(), made.created_at.as_str()),
        (ID_B, "n@example.com", "hash", AT)
    );
    assert_eq!(
        session
            .create_user_with(&repo, None, "n@example.com", Err("no entropy".to_string()), ID_B, AT)
            .unwrap_err(),
        "no entropy"
    );
    let taken = user(ID_A, "n@example.com");
    assert_eq!(
        session
            .create_user_with(&repo, Some(&taken), "n@example.com", Ok("hash".to_string()), ID_B, AT)
            .unwrap_err(),
        "A user with this email already exists."
    );
    assert_eq!(
        session
            .create_user_with(&repo, Some(&taken), "n@example.com", Err("x".to_string()), ID_B, AT)
            .unwrap_err(),
        "x"
    );
    assert_eq!(
        session
            .create_user_with(&repo, None, "n@example.com", Ok("hash".to_string()), "bad", AT)
            .unwrap_err(),
        "Invalid ID provided."
    );
    let nobody = Session::new();
    assert_eq!(
        nobody
            .create_user_with(&repo, None, "n@example.com", Ok("hash".to_string()), ID_B, AT)
            .unwrap_err(),
        "Session invalid. Please login."
    );
    let creds = UserCredentials { email: "n@example.com".to_string(), password: "pw".to_string() };
    assert_eq!(
        nobody.create_user(&repo, None, creds.clone(), ID_B, AT).unwrap_err(),
        "Session invalid. Please login."
    );
    assert_eq!(
        session.create_user(&repo, None, creds, "bad", AT).unwrap_err(),
        "Invalid ID provided."
    );
}

#[test]
fn commands_fail_where_a_secret_cannot_be_revealed() {
    let repo = VaultRepository::new("shared".to_string());
    let session = session_for("u1");
    let mut record = repo.create_secret(ID_A, "k", "v", "u1", AT).unwrap();
    record.value = "not base64".to_string();
    let found = vec![record];
    assert_eq!(
        session.list_secrets(&repo, None, &found).unwrap_err(),
        "Failed to retrieve vault entries."
    );
    assert_eq!(
        session.list_secrets(&repo, Some(ID_A), &found).unwrap_err(),
        "Failed to retrieve vault entry."
    );
    let mut client = AuthenticatedUser::new();
    let pair = new_pair();
    let keys = decode_keys(&pair).unwrap();
    let token = issue("u1", "k", &keys, NOW).unwrap();
    client.validate_token(&token, &pair, NOW).unwrap();
    assert_eq!(
        client.list_secrets(&repo, None, &found).unwrap_err(),
        "Failed to retrieve vault entries."
    );
}

#[test]
fn a_text_that_is_no_token_fails_before_the_keys_are_decoded() {
    let mut broken = new_pair();
    broken.private_key = "".to_string();
    let mut session = Session::new();
    assert_eq!(session.validate_session("junk", &broken, NOW).unwrap_err(), "TokenFormat");
    assert_eq!(session.validate_session("", &new_pair(), NOW).unwrap_err(), "TokenFormat");
    let mut client = AuthenticatedUser::new();
    assert_eq!(client.validate_token("junk", &broken, NOW).unwrap_err(), "TokenFormat");
}

#[test]
fn cli_login_checks_the_password_and_then_issues() {
    let pair = new_pair();
    let stored = User {
        id: ID_A.to_string(),
        email: "alice@example.com".to_string(),
        password: bcrypt::hash("hunter2", 4).unwrap(),
        created_at: AT.to_string(),
    };
    let creds = UserCredentials {
        email: "alice@example.com".to_string(),
        password: "hunter2".to_string(),
    };
    let wrong = UserCredentials { email: creds.email.clone(), password: "x".to_string() };
    let auth = Auth::new();
    assert_eq!(auth.check(None, &creds).unwrap_err(), "Invalid login credentials");
    assert_eq!(auth.check(Some(&stored), &wrong).unwrap_err(), "Invalid credentials");
    let checked = auth.check(Some(&stored), &creds).unwrap();
    let token = auth.issue(&checked, &pair, "k", NOW).unwrap();
    let mut session = Session::new();
    session.validate_session(&token, &pair, NOW).unwrap();
    assert_eq!(session.subject().unwrap(), "alice@example.com");
}

#[test]
fn cli_login_fails_as_an_invalid_claim_where_no_token_can_be_issued() {
    let pair = new_pair();
    let stored = User {
        id: ID_A.to_string(),
        email: "alice@example.com".to_string(),
        password: bcrypt::hash("hunter2", 4).unwrap(),
        created_at: AT.to_string(),
    };
    let creds = UserCredentials {
        email: "alice@example.com".to_string(),
        password: "hunter2".to_string(),
    };
    let mut auth = Auth::new();
    assert_eq!(
        auth.login(Some(&stored), &creds, &pair, "k", i64::MAX).unwrap_err(),
        "InvalidClaim"
    );
    let checked = auth.check(Some(&stored), &creds).unwrap();
    assert_eq!(auth.issue(&checked, &pair, "k", i64::MIN).unwrap_err(), "InvalidClaim");
    let mut client = AuthenticatedUser::new();
    assert_eq!(
        client.login(Some(&stored), &creds, &pair, "k", i64::MAX).unwrap_err(),
        "InvalidClaim"
    );
}
