//! The command-line client's side: logging in for a token, validating the
//! stored token, and the rows of the tables it prints.

use crate::auth::{
    authorize_user, check_form, check_password, hash_password, issue_for, issued, nonce_for,
    unissuable, verification, verify_token, CheckedCredentials, TokenClaims, TokenClaimsView,
    TokenError,
};
use crate::paseto::token_well_formed;
use crate::encoding::{is_object_id, same_id};
use crate::keys::{decode_keys, decoded};
use crate::models::{KeyPairDocument, Secret, User, UserCredentials, Vault};
use crate::paseto::public_half;
use crate::primitives::bcrypt_verdict;
use crate::users::{UserFilter, UserRepository, UserView};
use crate::vault::{
    listable, listing, revealed, seals, views, VaultFilter, VaultRepository, VaultView,
};
use vstd::prelude::*;
use vstd::string::*;

verus! {

/// A row of a table: one text for each column.
pub type Row = Vec<String>;

/// The texts of a row.
pub open spec fn row_texts(row: Row) -> Seq<Seq<char>> {
    row@.map_values(|cell: String| cell@)
}

/// The texts of the rows of a table.
pub open spec fn table_texts(rows: Seq<Row>) -> Seq<Seq<Seq<char>>> {
    rows.map_values(|row: Row| row_texts(row))
}

/// The row that shows a user: identifier, email and time of creation.
pub open spec fn user_row(user: User) -> Seq<Seq<char>> {
    seq![user.id@, user.email@, user.created_at@]
}

/// The row that shows a listed secret: identifier, key and value.
pub open spec fn secret_row(record: VaultView) -> Seq<Seq<char>> {
    seq![record.id, record.key, record.value]
}

/// The table of `users`, under its header.
pub open spec fn user_table(users: Seq<User>) -> Seq<Seq<Seq<char>>> {
    seq![seq!["Id"@, "Email"@, "CreatedAt"@]] + users.map_values(|user: User| user_row(user))
}

/// The table of listed secrets, under its header.
pub open spec fn secret_table(records: Seq<VaultView>) -> Seq<Seq<Seq<char>>> {
    seq![seq!["Id"@, "Key"@, "Value"@]] + records.map_values(
        |record: VaultView| secret_row(record),
    )
}

/// The table of one revealed secret, under its header.
pub open spec fn single_secret_table(id: Seq<char>, value: Seq<char>) -> Seq<Seq<Seq<char>>> {
    seq![seq!["Id"@, "Secret"@], seq![id, value]]
}

/// A row of two texts.
fn row2(a: &str, b: &str) -> (res: Row)
    ensures
        row_texts(res) == seq![a@, b@],
{
    let mut row: Row = Vec::new();
    row.push(a.to_owned());
    row.push(b.to_owned());
    assert(row_texts(row) =~= seq![a@, b@]);
    row
}

/// A row of three texts.
fn row3(a: &str, b: &str, c: &str) -> (res: Row)
    ensures
        row_texts(res) == seq![a@, b@, c@],
{
    let mut row: Row = Vec::new();
    row.push(a.to_owned());
    row.push(b.to_owned());
    row.push(c.to_owned());
    assert(row_texts(row) =~= seq![a@, b@, c@]);
    row
}

/// The rows of the table of `users`.
pub fn user_rows(users: &Vec<User>) -> (res: Vec<Row>)
    ensures
        table_texts(res@) == user_table(users@),
{
    let mut rows: Vec<Row> = Vec::new();
    rows.push(row3("Id", "Email", "CreatedAt"));
    let mut i: usize = 0;
    while i < users.len()
        invariant
            i <= users.len(),
            rows@.len() == i + 1,
            row_texts(rows@[0]) == seq!["Id"@, "Email"@, "CreatedAt"@],
            forall|j: int| 0 <= j < i ==> row_texts(#[trigger] rows@[j + 1]) == user_row(users@[j]),
        decreases users.len() - i,
    {
        let user = &users[i];
        rows.push(row3(user.id.as_str(), user.email.as_str(), user.created_at.as_str()));
        i += 1;
    }
    assert(table_texts(rows@) =~= user_table(users@)) by {
        assert forall|j: int| 0 <= j < rows@.len() implies table_texts(rows@)[j] == user_table(
            users@,
        )[j] by {
            if j > 0 {
                assert(row_texts(rows@[(j - 1) + 1]) == user_row(users@[j - 1]));
            }
        }
    }
    rows
}

/// The rows of the table of the listed secrets `records`.
pub fn secret_rows(records: &Vec<Vault>) -> (res: Vec<Row>)
    ensures
        table_texts(res@) == secret_table(views(records@)),
{
    let mut rows: Vec<Row> = Vec::new();
    rows.push(row3("Id", "Key", "Value"));
    let mut i: usize = 0;
    while i < records.len()
        invariant
            i <= records.len(),
            rows@.len() == i + 1,
            row_texts(rows@[0]) == seq!["Id"@, "Key"@, "Value"@],
            forall|j: int|
                0 <= j < i ==> row_texts(#[trigger] rows@[j + 1]) == secret_row(records@[j]@),
        decreases records.len() - i,
    {
        let record = &records[i];
        rows.push(row3(record.id.as_str(), record.key.as_str(), record.value.as_str()));
        i += 1;
    }
    assert(table_texts(rows@) =~= secret_table(views(records@))) by {
        assert forall|j: int| 0 <= j < rows@.len() implies table_texts(rows@)[j] == secret_table(
            views(records@),
        )[j] by {
            if j > 0 {
                assert(row_texts(rows@[(j - 1) + 1]) == secret_row(records@[j - 1]@));
            }
        }
    }
    rows
}

/// Logging in from the command line.
#[derive(Debug)]
pub struct Auth {}

impl Auth {
    pub fn new() -> (res: Auth) {
        Auth {}
    }

    /// Decides, from the look for the user with the email of `creds`, whether
    /// the password is accepted. This takes no key pair: an unknown email and
    /// a wrong password fail before any key is looked up.
    pub fn check(&self, found: Option<&User>, creds: &UserCredentials) -> (res: Result<
        CheckedCredentials,
        String,
    >)
        ensures
            found is None ==> (res matches Err(e) && e@ == "Invalid login credentials"@),
            found matches Some(user) ==> {
                &&& res is Ok <==> bcrypt_verdict(creds.password@, user.password@) == Some(true)
                &&& bcrypt_verdict(creds.password@, user.password@) == Some(false) ==> (
                res matches Err(e) && e@ == "Invalid credentials"@)
            },
            res matches Ok(checked) ==> checked.subject() == creds.email@,
    {
        match found {
            Some(user) => check_password(user, creds),
            None => Err("Invalid login credentials".to_owned()),
        }
    }

    /// Issues the token to keep for later commands, for credentials whose
    /// password was accepted.
    pub fn issue(
        &self,
        checked: &CheckedCredentials,
        key_pair: &KeyPairDocument,
        authentication_key: &str,
        now: i64,
    ) -> (res: Result<String, String>)
        ensures
            decoded(*key_pair) is None ==> res is Err,
            decoded(*key_pair) is Some && unissuable(checked.subject(), now as int) ==> (
            res matches Err(e) && e@ == "InvalidClaim"@),
            res matches Ok(token) ==> {
                &&& decoded(*key_pair) is Some
                &&& issued(
                    token@,
                    public_half(decoded(*key_pair)->Some_0.0),
                    checked.subject(),
                    nonce_for(checked.subject(), authentication_key@),
                    now as int,
                )
            },
    {
        issue_for(checked, key_pair, authentication_key, now)
    }

    /// Decides, from the look for the user with the email of `creds`, whether
    /// the login succeeds, and returns the token to keep for later commands.
    pub fn login(
        &mut self,
        found: Option<&User>,
        creds: &UserCredentials,
        key_pair: &KeyPairDocument,
        authentication_key: &str,
        now: i64,
    ) -> (res: Result<String, String>)
        ensures
            found is None ==> (res matches Err(e) && e@ == "Invalid login credentials"@),
            found matches Some(user) ==> {
                &&& bcrypt_verdict(creds.password@, user.password@) == Some(false) ==> (
                res matches Err(e) && e@ == "Invalid credentials"@)
                &&& bcrypt_verdict(creds.password@, user.password@) == Some(true) ==> {
                    &&& decoded(*key_pair) is None ==> res is Err
                    &&& decoded(*key_pair) is Some && unissuable(creds.email@, now as int) ==> (
                    res matches Err(e) && e@ == "InvalidClaim"@)
                }
                &&& res matches Ok(token) ==> {
                    &&& bcrypt_verdict(creds.password@, user.password@) == Some(true)
                    &&& decoded(*key_pair) is Some
                    &&& issued(
                        token@,
                        public_half(decoded(*key_pair)->Some_0.0),
                        creds.email@,
                        nonce_for(creds.email@, authentication_key@),
                        now as int,
                    )
                }
            },
    {
        match found {
            Some(user) => authorize_user(user, creds, key_pair, authentication_key, now),
            None => Err("Invalid login credentials".to_owned()),
        }
    }
}

/// The state of one command of the client: the claims of the stored token,
/// once it has been validated.
#[derive(Debug)]
pub struct Session {
    pub claims: Option<TokenClaims>,
}

/// The claims of a session.
pub open spec fn claims_of(session: Session) -> Option<TokenClaimsView> {
    match session.claims {
        Some(claims) => Some(claims@),
        None => None,
    }
}

/// The subject that a session acts for.
pub open spec fn acting_subject(session: Session) -> Option<Seq<char>> {
    match session.claims {
        Some(claims) => crate::text::text_of(claims.subject),
        None => None,
    }
}

impl Session {
    /// A session that has not validated a token yet.
    pub fn new() -> (res: Session)
        ensures
            res.claims is None,
    {
        Session { claims: None }
    }

    /// Validates the stored token and keeps its claims for the command.
    ///
    /// A text that is no token fails first, as `TokenFormat`, whatever the key
    /// pair. Then a key pair that does not decode fails, and then a token that
    /// does not verify at the time `now`. After a failure the session holds no
    /// claims.
    pub fn validate_session(&mut self, token: &str, key_pair: &KeyPairDocument, now: i64) -> (res:
        Result<(), String>)
        ensures
            res is Ok <==> decoded(*key_pair) is Some && verification(
                decoded(*key_pair)->Some_0.1,
                token@,
                now as int,
            ) is Ok,
            res is Ok ==> claims_of(*final(self)) == Some(
                verification(decoded(*key_pair)->Some_0.1, token@, now as int)->Ok_0,
            ),
            res is Err ==> final(self).claims is None,
            !token_well_formed(token@) ==> (res matches Err(e) && e@
                == TokenError::MalformedToken.spec_message()),
            decoded(*key_pair) is Some ==> (res matches Err(e) ==> e@ == verification(
                decoded(*key_pair)->Some_0.1,
                token@,
                now as int,
            )->Err_0.spec_message()),
    {
        self.claims = None;
        match check_form(token) {
            Ok(()) => {},
            Err(e) => {
                return Err(e.message());
            },
        }
        let keys = match decode_keys(key_pair) {
            Ok(keys) => keys,
            Err(e) => {
                return Err(e);
            },
        };
        match verify_token(token, keys.public.as_slice(), now) {
            Ok(claims) => {
                self.claims = Some(claims);
                Ok(())
            },
            Err(e) => Err(e.message()),
        }
    }

    /// The subject this session acts for.
    ///
    /// Fails with `Session invalid. Please login.` before a token has been
    /// validated, and with an empty message where the token names no subject.
    pub fn subject(&self) -> (res: Result<&str, String>)
        ensures
            self.claims is None ==> (res matches Err(e) && e@ == "Session invalid. Please login."@),
            self.claims is Some && acting_subject(*self) is None ==> (res matches Err(e) && e@
                == ""@),
            acting_subject(*self) matches Some(subject) ==> (res matches Ok(s) && s@ == subject),
    {
        match &self.claims {
            None => Err("Session invalid. Please login.".to_owned()),
            Some(claims) => match &claims.subject {
                Some(subject) => Ok(subject.as_str()),
                None => Err("".to_owned()),
            },
        }
    }

    /// What to ask the user store for the `users list` command.
    pub fn get_users_query(&self, repo: &UserRepository, id: Option<&str>) -> (res: Result<
        UserFilter,
        String,
    >)
        ensures
            self.claims is None ==> res is Err,
            self.claims is Some ==> match id {
                None => res matches Ok(UserFilter::All),
                Some(id) => if is_object_id(id@) {
                    res matches Ok(UserFilter::Id(wanted)) && wanted@ == id@
                } else {
                    res matches Err(e) && e@ == "Invalid ID provided."@
                },
            },
    {
        if self.claims.is_none() {
            return Err("Session invalid. Please login.".to_owned());
        }
        match id {
            None => Ok(repo.list_users()),
            Some(id) => match repo.get_user_by_id(id) {
                Ok(filter) => Ok(filter),
                Err(e) => Err(e.message()),
            },
        }
    }

    /// The table that the `users list` command prints for the users found.
    pub fn get_users(&self, found: &Vec<User>) -> (res: Result<Vec<Row>, String>)
        ensures
            self.claims is None ==> res is Err,
            self.claims is Some ==> (res matches Ok(rows) && table_texts(rows@) == user_table(
                found@,
            )),
    {
        if self.claims.is_none() {
            return Err("Session invalid. Please login.".to_owned());
        }
        Ok(user_rows(found))
    }

    /// What to ask the user store to delete for the `users delete` command.
    pub fn delete_user(&self, repo: &UserRepository, id: Option<&str>) -> (res: Result<
        UserFilter,
        String,
    >)
        ensures
            self.claims is None ==> res is Err,
            self.claims is Some ==> match id {
                None => res matches Err(e) && e@
                    == "Please provide an id for the account to delete"@,
                Some(id) => if is_object_id(id@) {
                    res matches Ok(UserFilter::Id(wanted)) && wanted@ == id@
                } else {
                    res matches Err(e) && e@ == "Invalid ID provided."@
                },
            },
    {
        if self.claims.is_none() {
            return Err("Session invalid. Please login.".to_owned());
        }
        let id = match id {
            Some(id) => id,
            None => {
                return Err("Please provide an id for the account to delete".to_owned());
            },
        };
        match repo.delete_user(id) {
            Ok(filter) => Ok(filter),
            Err(e) => Err(e.message()),
        }
    }

    /// The record to insert for the `users create` command, given the look for
    /// a user with the same email.
    pub fn create_user(
        &self,
        repo: &UserRepository,
        existing: Option<&User>,
        creds: UserCredentials,
        id: &str,
        created_at: &str,
    ) -> (res: Result<User, String>)
        ensures
            self.claims is None ==> (res matches Err(e) && e@
                == "Session invalid. Please login."@),
            existing is Some ==> res is Err,
            res matches Ok(user) ==> {
                &&& user.id@ == id@
                &&& user.email@ == creds.email@
                &&& user.created_at@ == created_at@
                &&& bcrypt_verdict(creds.password@, user.password@) == Some(true)
            },
            exists|hashed: Result<Seq<char>, Seq<char>>|
                {
                    &&& hashed matches Ok(hash) ==> bcrypt_verdict(creds.password@, hash) == Some(
                        true,
                    )
                    &&& user_result_is(
                        res,
                        #[trigger] user_creation(
                            self.claims is Some,
                            existing is Some,
                            id@,
                            creds.email@,
                            hashed,
                            created_at@,
                        ),
                    )
                },
    {
        if self.claims.is_none() {
            let refused: Result<User, String> = Err("Session invalid. Please login.".to_owned());
            assert(user_result_is(
                refused,
                user_creation(
                    self.claims is Some,
                    existing is Some,
                    id@,
                    creds.email@,
                    Err::<Seq<char>, Seq<char>>(""@),
                    created_at@,
                ),
            ));
            return refused;
        }
        let hashed = hash_password(creds.password);
        let ghost outcome = text_result(hashed);
        let email = creds.email.as_str();
        let res = self.create_user_with(repo, existing, email, hashed, id, created_at);
        assert(user_result_is(
            res,
            user_creation(
                self.claims is Some,
                existing is Some,
                id@,
                creds.email@,
                outcome,
                created_at@,
            ),
        ));
        res
    }

    /// The record to insert for a new user once the password has been hashed,
    /// or has failed to be: `hashed` is what the hashing came back with.
    ///
    /// Before a token has been validated nothing is made. A hashing that failed
    /// fails the command with its own message. Then an email that is taken and
    /// an identifier that cannot name a record are refused, in this order.
    pub fn create_user_with(
        &self,
        repo: &UserRepository,
        existing: Option<&User>,
        email: &str,
        hashed: Result<String, String>,
        id: &str,
        created_at: &str,
    ) -> (res: Result<User, String>)
        ensures
            user_result_is(
                res,
                user_creation(
                    self.claims is Some,
                    existing is Some,
                    id@,
                    email@,
                    text_result(hashed),
                    created_at@,
                ),
            ),
    {
        if self.claims.is_none() {
            return Err("Session invalid. Please login.".to_owned());
        }
        let hash = match hashed {
            Ok(hash) => hash,
            Err(e) => {
                return Err(e);
            },
        };
        match repo.create_user(existing, id, email, hash.as_str(), created_at) {
            Ok(user) => Ok(user),
            Err(e) => Err(e.message()),
        }
    }

    /// The record to insert for the `secret create` command: owned by the
    /// subject of the session, with its value sealed.
    pub fn create_secret(
        &self,
        repo: &VaultRepository,
        secret: &Secret,
        id: &str,
        created_at: &str,
    ) -> (res: Result<Vault, String>)
        ensures
            acting_subject(*self) is None ==> res is Err,
            acting_subject(*self) matches Some(subject) ==> {
                &&& res is Ok <==> is_object_id(id@) && repo.sealable(secret.value@)
                &&& res matches Ok(record) ==> {
                    &&& record.id@ == id@
                    &&& record.key@ == secret.key@
                    &&& record.created_by@ == subject
                    &&& record.created_at@ == created_at@
                    &&& seals(record.value@, secret.value@, repo.encryption_key@)
                    &&& record.value@ != secret.value@
                }
            },
    {
        let created_by = match self.subject() {
            Ok(subject) => subject,
            Err(e) => {
                return Err(e);
            },
        };
        match repo.create_secret(
            id,
            secret.key.as_str(),
            secret.value.as_str(),
            created_by,
            created_at,
        ) {
            Ok(record) => Ok(record),
            Err(_) => Err("Failed to create vault entry".to_owned()),
        }
    }

    /// What to ask the secret store for the `secret list` command, and for the
    /// `secret delete` command where an identifier is given.
    pub fn secrets_query(&self, repo: &VaultRepository, id: Option<&str>) -> (res: Result<
        VaultFilter,
        String,
    >)
        ensures
            acting_subject(*self) is None ==> res is Err,
            acting_subject(*self) matches Some(subject) ==> match id {
                None => res matches Ok(filter) && filter.id is None && filter.created_by@
                    == subject,
                Some(id) => if is_object_id(id@) {
                    res matches Ok(filter) && filter.created_by@ == subject && filter.id is Some
                        && filter.id->Some_0@ == id@
                } else {
                    res matches Err(e) && e@ == "Invalid secret id"@
                },
            },
    {
        let subject = match self.subject() {
            Ok(subject) => subject,
            Err(e) => {
                return Err(e);
            },
        };
        match id {
            None => Ok(repo.owner_filter(subject)),
            Some(id) => match repo.secret_filter(id, subject) {
                Ok(filter) => Ok(filter),
                Err(_) => Err("Invalid secret id".to_owned()),
            },
        }
    }

    /// The table that the `secret list` command prints.
    ///
    /// With an identifier: the one secret, revealed, where the first record
    /// found is that secret of the subject, and `Invalid secret id` where it is
    /// not. Without: the subject's secrets under the header, which is the
    /// header alone where the subject has none. A secret of the subject that
    /// cannot be revealed fails the command.
    pub fn list_secrets(
        &self,
        repo: &VaultRepository,
        id: Option<&str>,
        found: &Vec<Vault>,
    ) -> (res: Result<Vec<Row>, String>)
        ensures
            acting_subject(*self) is None ==> res is Err,
            acting_subject(*self) matches Some(subject) ==> match id {
                None => {
                    let shown = listing(views(found@), subject, repo.encryption_key@);
                    if !listable(views(found@), subject, repo.encryption_key@) {
                        res matches Err(e) && e@ == "Failed to retrieve vault entries."@
                    } else {
                        res matches Ok(rows) && table_texts(rows@) == secret_table(shown)
                    }
                },
                Some(id) => {
                    if is_object_id(id@) && found@.len() > 0 && same_id(found@[0].id@, id@)
                        && found@[0].created_by@ == subject {
                        match revealed(found@[0].value@, repo.encryption_key@) {
                            Ok(value) => res matches Ok(rows) && table_texts(rows@)
                                == single_secret_table(id@, value),
                            Err(_) => res matches Err(e) && e@
                                == "Failed to retrieve vault entry."@,
                        }
                    } else {
                        res matches Err(e) && e@ == "Invalid secret id"@
                    }
                },
            },
    {
        let subject = match self.subject() {
            Ok(subject) => subject,
            Err(e) => {
                return Err(e);
            },
        };
        match id {
            Some(id) => {
                let first = if found.len() > 0 {
                    Some(&found[0])
                } else {
                    None
                };
                match repo.get_secret_by_id(first, id, subject) {
                    Ok(Some(secret)) => {
                        let mut rows: Vec<Row> = Vec::new();
                        rows.push(row2("Id", "Secret"));
                        rows.push(row2(id, secret.as_str()));
                        assert(table_texts(rows@) =~= single_secret_table(id@, secret@));
                        Ok(rows)
                    },
                    Ok(None) => Err("Invalid secret id".to_owned()),
                    Err(e) => match e {
                        crate::vault::VaultError::InvalidId => Err("Invalid secret id".to_owned()),
                        _ => Err("Failed to retrieve vault entry.".to_owned()),
                    },
                }
            },
            None => {
                let secrets = match repo.list_secrets(found, subject) {
                    Ok(secrets) => secrets,
                    Err(_) => {
                        return Err("Failed to retrieve vault entries.".to_owned());
                    },
                };
                Ok(secret_rows(&secrets))
            },
        }
    }

    /// What to ask the secret store to delete for the `secret delete` command.
    pub fn delete_secret(&self, repo: &VaultRepository, id: &str) -> (res: Result<
        VaultFilter,
        String,
    >)
        ensures
            acting_subject(*self) is None ==> res is Err,
            acting_subject(*self) matches Some(subject) ==> if is_object_id(id@) {
                res matches Ok(filter) && filter.created_by@ == subject && filter.id is Some
                    && filter.id->Some_0@ == id@
            } else {
                res matches Err(e) && e@ == "Invalid secret id"@
            },
    {
        self.secrets_query(repo, Some(id))
    }
}

/// A client that logs in and works on the stores in one value.
///
/// It decides as [`Auth`] and [`Session`] do, with one difference: a command
/// before a valid token fails with `Invalid token`.
#[derive(Debug)]
pub struct AuthenticatedUser {
    pub session: Session,
}

impl AuthenticatedUser {
    /// A client that has not validated a token yet.
    pub fn new() -> (res: AuthenticatedUser)
        ensures
            res.session.claims is None,
    {
        AuthenticatedUser { session: Session::new() }
    }

    /// The subject this client acts for.
    pub open spec fn acting(&self) -> Option<Seq<char>> {
        acting_subject(self.session)
    }

    /// Decides whether the login succeeds, as [`Auth::login`] does.
    pub fn login(
        &mut self,
        found: Option<&User>,
        creds: &UserCredentials,
        key_pair: &KeyPairDocument,
        authentication_key: &str,
        now: i64,
    ) -> (res: Result<String, String>)
        ensures
            final(self).session == old(self).session,
            found is None ==> (res matches Err(e) && e@ == "Invalid login credentials"@),
            found matches Some(user) ==> {
                &&& bcrypt_verdict(creds.password@, user.password@) == Some(false) ==> (
                res matches Err(e) && e@ == "Invalid credentials"@)
                &&& bcrypt_verdict(creds.password@, user.password@) == Some(true) ==> {
                    &&& decoded(*key_pair) is None ==> res is Err
                    &&& decoded(*key_pair) is Some && unissuable(creds.email@, now as int) ==> (
                    res matches Err(e) && e@ == "InvalidClaim"@)
                }
                &&& res matches Ok(token) ==> {
                    &&& bcrypt_verdict(creds.password@, user.password@) == Some(true)
                    &&& decoded(*key_pair) is Some
                    &&& issued(
                        token@,
                        public_half(decoded(*key_pair)->Some_0.0),
                        creds.email@,
                        nonce_for(creds.email@, authentication_key@),
                        now as int,
                    )
                }
            },
    {
        match found {
            Some(user) => authorize_user(user, creds, key_pair, authentication_key, now),
            None => Err("Invalid login credentials".to_owned()),
        }
    }

    /// Validates the stored token and keeps its claims, as
    /// [`Session::validate_session`] does.
    pub fn validate_token(&mut self, token: &str, key_pair: &KeyPairDocument, now: i64) -> (res:
        Result<(), String>)
        ensures
            res is Ok <==> decoded(*key_pair) is Some && verification(
                decoded(*key_pair)->Some_0.1,
                token@,
                now as int,
            ) is Ok,
            res is Ok ==> claims_of(final(self).session) == Some(
                verification(decoded(*key_pair)->Some_0.1, token@, now as int)->Ok_0,
            ),
            res is Err ==> final(self).session.claims is None,
            !token_well_formed(token@) ==> (res matches Err(e) && e@
                == TokenError::MalformedToken.spec_message()),
            decoded(*key_pair) is Some ==> (res matches Err(e) ==> e@ == verification(
                decoded(*key_pair)->Some_0.1,
                token@,
                now as int,
            )->Err_0.spec_message()),
    {
        self.session.validate_session(token, key_pair, now)
    }

    /// The table of the users found, as [`Session::get_users`] makes it.
    pub fn get_users(&self, found: &Vec<User>) -> (res: Result<Vec<Row>, String>)
        ensures
            self.session.claims is None ==> (res matches Err(e) && e@ == "Invalid token"@),
            self.session.claims is Some ==> (res matches Ok(rows) && table_texts(rows@)
                == user_table(found@)),
    {
        if self.session.claims.is_none() {
            return Err("Invalid token".to_owned());
        }
        Ok(user_rows(found))
    }

    /// What to ask the user store to delete, as [`Session::delete_user`] says.
    pub fn delete_user(&self, repo: &UserRepository, id: Option<&str>) -> (res: Result<
        UserFilter,
        String,
    >)
        ensures
            self.session.claims is None ==> (res matches Err(e) && e@ == "Invalid token"@),
            self.session.claims is Some ==> match id {
                None => res matches Err(e) && e@
                    == "Please provide an id for the account to delete"@,
                Some(id) => if is_object_id(id@) {
                    res matches Ok(UserFilter::Id(wanted)) && wanted@ == id@
                } else {
                    res matches Err(e) && e@ == "Invalid ID provided."@
                },
            },
    {
        if self.session.claims.is_none() {
            return Err("Invalid token".to_owned());
        }
        self.session.delete_user(repo, id)
    }

    /// The record to insert for a new user, as [`Session::create_user`] makes
    /// it.
    pub fn create_user(
        &self,
        repo: &UserRepository,
        existing: Option<&User>,
        creds: UserCredentials,
        id: &str,
        created_at: &str,
    ) -> (res: Result<User, String>)
        ensures
            self.session.claims is None ==> (res matches Err(e) && e@ == "Invalid token"@),
            existing is Some ==> res is Err,
            res matches Ok(user) ==> {
                &&& user.id@ == id@
                &&& user.email@ == creds.email@
                &&& user.created_at@ == created_at@
                &&& bcrypt_verdict(creds.password@, user.password@) == Some(true)
            },
    {
        if self.session.claims.is_none() {
            return Err("Invalid token".to_owned());
        }
        self.session.create_user(repo, existing, creds, id, created_at)
    }

    /// The record to insert for a new secret, as [`Session::create_secret`]
    /// makes it.
    pub fn create_secret(
        &self,
        repo: &VaultRepository,
        secret: &Secret,
        id: &str,
        created_at: &str,
    ) -> (res: Result<Vault, String>)
        ensures
            self.session.claims is None ==> (res matches Err(e) && e@ == "Invalid token"@),
            self.acting() is None ==> res is Err,
            self.acting() matches Some(subject) ==> {
                &&& res is Ok <==> is_object_id(id@) && repo.sealable(secret.value@)
                &&& res matches Ok(record) ==> {
                    &&& record.id@ == id@
                    &&& record.key@ == secret.key@
                    &&& record.created_by@ == subject
                    &&& record.created_at@ == created_at@
                    &&& seals(record.value@, secret.value@, repo.encryption_key@)
                    &&& record.value@ != secret.value@
                }
            },
    {
        if self.session.claims.is_none() {
            return Err("Invalid token".to_owned());
        }
        self.session.create_secret(repo, secret, id, created_at)
    }

    /// The table of the `secret list` command, as [`Session::list_secrets`]
    /// makes it: a listing without secrets is a table of the header alone, and
    /// a secret of the subject that cannot be revealed fails the command.
    pub fn list_secrets(
        &self,
        repo: &VaultRepository,
        id: Option<&str>,
        found: &Vec<Vault>,
    ) -> (res: Result<Vec<Row>, String>)
        ensures
            self.session.claims is None ==> (res matches Err(e) && e@ == "Invalid token"@),
            self.acting() is None ==> res is Err,
            self.acting() matches Some(subject) ==> match id {
                None => if listable(views(found@), subject, repo.encryption_key@) {
                    res matches Ok(rows) && table_texts(rows@) == secret_table(
                        listing(views(found@), subject, repo.encryption_key@),
                    )
                } else {
                    res matches Err(e) && e@ == "Failed to retrieve vault entries."@
                },
                Some(id) => {
                    if is_object_id(id@) && found@.len() > 0 && same_id(found@[0].id@, id@)
                        && found@[0].created_by@ == subject {
                        match revealed(found@[0].value@, repo.encryption_key@) {
                            Ok(value) => res matches Ok(rows) && table_texts(rows@)
                                == single_secret_table(id@, value),
                            Err(_) => res matches Err(e) && e@
                                == "Failed to retrieve vault entry."@,
                        }
                    } else {
                        res matches Err(e) && e@ == "Invalid secret id"@
                    }
                },
            },
    {
        if self.session.claims.is_none() {
            return Err("Invalid token".to_owned());
        }
        match id {
            Some(_) => self.session.list_secrets(repo, id, found),
            None => {
                let subject = match self.session.subject() {
                    Ok(subject) => subject,
                    Err(e) => {
                        return Err(e);
                    },
                };
                match repo.list_secrets(found, subject) {
                    Ok(secrets) => Ok(secret_rows(&secrets)),
                    Err(_) => Err("Failed to retrieve vault entries.".to_owned()),
                }
            },
        }
    }

    /// What to ask the secret store to delete, as [`Session::delete_secret`]
    /// says.
    pub fn delete_secret(&self, repo: &VaultRepository, id: &str) -> (res: Result<
        VaultFilter,
        String,
    >)
        ensures
            self.session.claims is None ==> (res matches Err(e) && e@ == "Invalid token"@),
            self.acting() is None ==> res is Err,
            self.acting() matches Some(subject) ==> if is_object_id(id@) {
                res matches Ok(filter) && filter.created_by@ == subject && filter.id is Some
                    && filter.id->Some_0@ == id@
            } else {
                res matches Err(e) && e@ == "Invalid secret id"@
            },
    {
        if self.session.claims.is_none() {
            return Err("Invalid token".to_owned());
        }
        self.session.delete_secret(repo, id)
    }
}

/// The characters of a text or of the message that came in its place.
pub open spec fn text_result(hashed: Result<String, String>) -> Result<Seq<char>, Seq<char>> {
    match hashed {
        Ok(text) => Ok(text@),
        Err(message) => Err(message@),
    }
}

/// What the `users create` command comes to: the record to insert, or the
/// message it fails with. `hashed` is what hashing the password came back with.
pub open spec fn user_creation(
    validated: bool,
    email_taken: bool,
    id: Seq<char>,
    email: Seq<char>,
    hashed: Result<Seq<char>, Seq<char>>,
    created_at: Seq<char>,
) -> Result<UserView, Seq<char>> {
    if !validated {
        Err("Session invalid. Please login."@)
    } else {
        match hashed {
            Err(message) => Err(message),
            Ok(password) => if email_taken {
                Err("A user with this email already exists."@)
            } else if !is_object_id(id) {
                Err("Invalid ID provided."@)
            } else {
                Ok(UserView { id, email, password, created_at })
            },
        }
    }
}

/// `res` is the record or the message that `expected` names.
pub open spec fn user_result_is(
    res: Result<User, String>,
    expected: Result<UserView, Seq<char>>,
) -> bool {
    match res {
        Ok(user) => expected == Ok::<UserView, Seq<char>>(user@),
        Err(message) => expected == Err::<UserView, Seq<char>>(message@),
    }
}

} // verus!
