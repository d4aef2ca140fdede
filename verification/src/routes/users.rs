//! The decisions of the handlers that register users and log them in.

use crate::auth::{
    check_password, hash_password, issue_for, issued, nonce_for, unissuable, CheckedCredentials,
};
use crate::encoding::{is_object_id, same_id, same_object_id, valid_object_id};
use crate::errors::PersistenceError;
use crate::keys::decoded;
use crate::models::{
    DeleteUserResponse, ErrorResponse, KeyPairDocument, LoginResponse, SetupResponse, User,
    UserCredentials, STATUS_BAD_REQUEST, STATUS_CONFLICT, STATUS_INTERNAL_SERVER_ERROR,
    STATUS_NOT_FOUND, STATUS_OK, STATUS_UNAUTHORIZED,
};
use crate::paseto::public_half;
use crate::primitives::bcrypt_verdict;
use crate::routes::{refuses, serve, Handler, Route};
use crate::users::{UserFilter, UserRepository, UserUpdate};
use vstd::prelude::*;
use vstd::string::*;

verus! {

/// Registers a user: decides, from the look for a user with the same email,
/// whether the account can be made, and makes the record to insert, with the
/// password hashed.
///
/// An email that is taken is refused as a conflict. A look that failed does
/// not stop the registration.
pub fn setup(
    repo: &UserRepository,
    existing: &Result<Option<User>, PersistenceError>,
    credentials: &UserCredentials,
    id: &str,
    created_at: &str,
) -> (res: Result<User, ErrorResponse>)
    ensures
        existing matches Ok(Some(_)) ==> refuses(
            res,
            STATUS_CONFLICT,
            "A user with this email already exists",
        ),
        !(existing matches Ok(Some(_))) ==> (res matches Err(e) ==> e.status
            == STATUS_INTERNAL_SERVER_ERROR),
        !is_object_id(id@) ==> res is Err,
        res matches Ok(user) ==> {
            &&& user.id@ == id@
            &&& user.email@ == credentials.email@
            &&& user.created_at@ == created_at@
            &&& bcrypt_verdict(credentials.password@, user.password@) == Some(true)
        },
{
    match existing {
        Ok(Some(_)) => {
            return Err(
                ErrorResponse::new(STATUS_CONFLICT, "A user with this email already exists"),
            );
        },
        _ => {},
    }
    let hashed_password = match hash_password(credentials.password.clone()) {
        Ok(hash) => hash,
        Err(_) => {
            return Err(ErrorResponse::new(STATUS_INTERNAL_SERVER_ERROR, "Internal server error"));
        },
    };
    match repo.create_user(
        None,
        id,
        credentials.email.as_str(),
        hashed_password.as_str(),
        created_at,
    ) {
        Ok(user) => Ok(user),
        Err(_) => Err(
            ErrorResponse::new(STATUS_INTERNAL_SERVER_ERROR, "Failed to setup account"),
        ),
    }
}

/// The answer to a registration once the store has inserted the user, or has
/// failed to.
pub fn setup_reply(inserted: &Result<(), PersistenceError>) -> (res: Result<
    SetupResponse,
    ErrorResponse,
>)
    ensures
        inserted is Ok ==> (res matches Ok(r) && r.status == STATUS_OK && r.message@
            == "User registered successfully"@),
        inserted is Err ==> refuses(res, STATUS_INTERNAL_SERVER_ERROR, "Failed to setup account"),
{
    match inserted {
        Ok(_) => Ok(
            SetupResponse { status: STATUS_OK, message: "User registered successfully".to_owned() },
        ),
        Err(_) => Err(
            ErrorResponse::new(STATUS_INTERNAL_SERVER_ERROR, "Failed to setup account"),
        ),
    }
}

/// Decides, from the look for the user with the email of `credentials`,
/// whether the password is accepted. This takes no key pair: whoever is
/// refused is refused before any key is looked up.
///
/// An unknown email and a wrong password are refused with the same answer.
pub fn login_check(
    found: &Result<Option<User>, PersistenceError>,
    credentials: &UserCredentials,
) -> (res: Result<CheckedCredentials, ErrorResponse>)
    ensures
        found is Err ==> refuses(res, STATUS_INTERNAL_SERVER_ERROR, "Internal server error"),
        found matches Ok(None) ==> refuses(res, STATUS_UNAUTHORIZED, "Invalid email or password"),
        found matches Ok(Some(user)) ==> {
            &&& res is Ok <==> bcrypt_verdict(credentials.password@, user.password@) == Some(true)
            &&& res is Err ==> refuses(res, STATUS_UNAUTHORIZED, "Invalid email or password")
        },
        res matches Ok(checked) ==> checked.subject() == credentials.email@,
{
    let user = match found {
        Ok(Some(user)) => user,
        Ok(None) => {
            return Err(ErrorResponse::new(STATUS_UNAUTHORIZED, "Invalid email or password"));
        },
        Err(_) => {
            return Err(ErrorResponse::new(STATUS_INTERNAL_SERVER_ERROR, "Internal server error"));
        },
    };
    match check_password(user, credentials) {
        Ok(checked) => Ok(checked),
        Err(_) => Err(ErrorResponse::new(STATUS_UNAUTHORIZED, "Invalid email or password")),
    }
}

/// The answer to a login whose password was accepted, given the stored key
/// pair, or `None` where it could not be had.
pub fn login_reply(
    checked: &CheckedCredentials,
    key_pair: Option<&KeyPairDocument>,
    authentication_key: &str,
    now: i64,
) -> (res: Result<LoginResponse, ErrorResponse>)
    ensures
        res is Err ==> refuses(res, STATUS_UNAUTHORIZED, "Invalid email or password"),
        key_pair is None ==> res is Err,
        key_pair matches Some(pair) ==> (decoded(*pair) is None ==> res is Err),
        unissuable(checked.subject(), now as int) ==> res is Err,
        res matches Ok(r) ==> {
            &&& r.status == STATUS_OK
            &&& key_pair matches Some(pair)
            &&& decoded(*pair) is Some
            &&& issued(
                r.token@,
                public_half(decoded(*pair)->Some_0.0),
                checked.subject(),
                nonce_for(checked.subject(), authentication_key@),
                now as int,
            )
        },
{
    let pair = match key_pair {
        Some(pair) => pair,
        None => {
            return Err(ErrorResponse::new(STATUS_UNAUTHORIZED, "Invalid email or password"));
        },
    };
    match issue_for(checked, pair, authentication_key, now) {
        Ok(token) => Ok(LoginResponse { status: STATUS_OK, token }),
        Err(_) => Err(ErrorResponse::new(STATUS_UNAUTHORIZED, "Invalid email or password")),
    }
}

/// Logs a user in: decides, from the look for the user with the email of
/// `credentials`, whether a token is issued.
///
/// An unknown email and a wrong password are refused with the same answer, so
/// that a caller does not learn which emails are registered. A token that is
/// issued names the email of `credentials` as its subject.
pub fn login(
    found: &Result<Option<User>, PersistenceError>,
    credentials: &UserCredentials,
    key_pair: Option<&KeyPairDocument>,
    authentication_key: &str,
    now: i64,
) -> (res: Result<LoginResponse, ErrorResponse>)
    ensures
        found is Err ==> refuses(res, STATUS_INTERNAL_SERVER_ERROR, "Internal server error"),
        found matches Ok(None) ==> refuses(res, STATUS_UNAUTHORIZED, "Invalid email or password"),
        found matches Ok(Some(user)) ==> {
            &&& res is Err ==> refuses(res, STATUS_UNAUTHORIZED, "Invalid email or password")
            &&& bcrypt_verdict(credentials.password@, user.password@) != Some(true) ==> res is Err
            &&& key_pair is None ==> res is Err
            &&& key_pair matches Some(pair) ==> (decoded(*pair) is None ==> res is Err)
            &&& unissuable(credentials.email@, now as int) ==> res is Err
            &&& res matches Ok(r) ==> {
                &&& r.status == STATUS_OK
                &&& key_pair matches Some(pair)
                &&& decoded(*pair) is Some
                &&& issued(
                    r.token@,
                    public_half(decoded(*pair)->Some_0.0),
                    credentials.email@,
                    nonce_for(credentials.email@, authentication_key@),
                    now as int,
                )
            }
        },
{
    let checked = match login_check(found, credentials) {
        Ok(checked) => checked,
        Err(e) => {
            return Err(e);
        },
    };
    login_reply(&checked, key_pair, authentication_key, now)
}

/// The answer to a request for all users.
pub fn list_users(found: Result<Vec<User>, PersistenceError>) -> (res: Result<
    Vec<User>,
    ErrorResponse,
>)
    ensures
        found matches Ok(users) ==> res == Ok::<Vec<User>, ErrorResponse>(users),
        found is Err ==> refuses(res, STATUS_INTERNAL_SERVER_ERROR, "Internal server error"),
{
    match found {
        Ok(users) => Ok(users),
        Err(_) => Err(ErrorResponse::new(STATUS_INTERNAL_SERVER_ERROR, "Internal server error")),
    }
}

/// What to ask the store for a request for the user `id`: refused where `id`
/// cannot name a record.
pub fn user_query(repo: &UserRepository, id: &str) -> (res: Result<UserFilter, ErrorResponse>)
    ensures
        !is_object_id(id@) ==> refuses(res, STATUS_BAD_REQUEST, "Invalid ID provided."),
        is_object_id(id@) ==> (res matches Ok(UserFilter::Id(wanted)) && wanted@ == id@),
{
    match repo.get_user_by_id(id) {
        Ok(filter) => Ok(filter),
        Err(_) => Err(ErrorResponse::new(STATUS_BAD_REQUEST, "Invalid ID provided.")),
    }
}

/// The answer to a request for the user `id`, given what the store found.
pub fn get_user(id: &str, found: Result<Option<User>, PersistenceError>) -> (res: Result<
    User,
    ErrorResponse,
>)
    ensures
        !is_object_id(id@) ==> refuses(res, STATUS_BAD_REQUEST, "Invalid ID provided."),
        is_object_id(id@) ==> match found {
            Ok(Some(user)) => res == Ok::<User, ErrorResponse>(user),
            Ok(None) => refuses(res, STATUS_NOT_FOUND, "User not found"),
            Err(_) => refuses(res, STATUS_INTERNAL_SERVER_ERROR, "Internal server error"),
        },
{
    if !valid_object_id(id) {
        return Err(ErrorResponse::new(STATUS_BAD_REQUEST, "Invalid ID provided."));
    }
    match found {
        Ok(Some(user)) => Ok(user),
        Ok(None) => Err(ErrorResponse::new(STATUS_NOT_FOUND, "User not found")),
        Err(_) => Err(ErrorResponse::new(STATUS_INTERNAL_SERVER_ERROR, "Internal server error")),
    }
}

/// Changes the email and password of the user `id`: decides, from the look
/// for a user with the new email, whether the change can be made, and makes the
/// update to send, with the password hashed.
///
/// An email that belongs to another user is refused as a conflict.
pub fn update_user(
    repo: &UserRepository,
    id: &str,
    existing: &Result<Option<User>, PersistenceError>,
    credentials: &UserCredentials,
) -> (res: Result<UserUpdate, ErrorResponse>)
    ensures
        !is_object_id(id@) ==> refuses(res, STATUS_BAD_REQUEST, "Invalid ID provided."),
        is_object_id(id@) ==> {
            &&& (existing matches Ok(Some(other)) && !same_id(other.id@, id@)) ==> refuses(
                res,
                STATUS_CONFLICT,
                "A user with this email already exists",
            )
            &&& !(existing matches Ok(Some(other)) && !same_id(other.id@, id@)) ==> (
            res matches Err(e) ==> e.status == STATUS_INTERNAL_SERVER_ERROR)
        },
        res matches Ok(update) ==> {
            &&& update.id@ == id@
            &&& update.email matches Some(email) && email@ == credentials.email@
            &&& update.password matches Some(hash) && bcrypt_verdict(
                credentials.password@,
                hash@,
            ) == Some(true)
        },
{
    if !valid_object_id(id) {
        return Err(ErrorResponse::new(STATUS_BAD_REQUEST, "Invalid ID provided."));
    }
    match existing {
        Ok(Some(other)) => {
            if !same_object_id(other.id.as_str(), id) {
                return Err(
                    ErrorResponse::new(STATUS_CONFLICT, "A user with this email already exists"),
                );
            }
        },
        _ => {},
    }
    let hashed_password = match hash_password(credentials.password.clone()) {
        Ok(hash) => hash,
        Err(_) => {
            return Err(ErrorResponse::new(STATUS_INTERNAL_SERVER_ERROR, "Internal server error"));
        },
    };
    match repo.update_user(
        id,
        Some(credentials.email.as_str()),
        Some(hashed_password.as_str()),
    ) {
        Ok(Some(update)) => Ok(update),
        _ => Err(ErrorResponse::new(STATUS_INTERNAL_SERVER_ERROR, "Internal server error")),
    }
}

/// The answer to an update, given the user the store changed.
pub fn update_user_reply(updated: Result<Option<User>, PersistenceError>) -> (res: Result<
    User,
    ErrorResponse,
>)
    ensures
        match updated {
            Ok(Some(user)) => res == Ok::<User, ErrorResponse>(user),
            Ok(None) => refuses(res, STATUS_NOT_FOUND, "User not found"),
            Err(_) => refuses(res, STATUS_INTERNAL_SERVER_ERROR, "Internal server error"),
        },
{
    match updated {
        Ok(Some(user)) => Ok(user),
        Ok(None) => Err(ErrorResponse::new(STATUS_NOT_FOUND, "User not found")),
        Err(_) => Err(ErrorResponse::new(STATUS_INTERNAL_SERVER_ERROR, "Internal server error")),
    }
}

/// The answer to a request to delete the user `id`, given the user the store
/// removed.
pub fn delete_user(id: &str, deleted: &Result<Option<User>, PersistenceError>) -> (res: Result<
    DeleteUserResponse,
    ErrorResponse,
>)
    ensures
        !is_object_id(id@) ==> refuses(res, STATUS_BAD_REQUEST, "Invalid ID provided."),
        is_object_id(id@) ==> match deleted {
            Ok(Some(_)) => res matches Ok(r) && r.status == STATUS_OK && r.message@
                == "User deleted successfully"@,
            Ok(None) => refuses(res, STATUS_NOT_FOUND, "User not found"),
            Err(_) => refuses(res, STATUS_INTERNAL_SERVER_ERROR, "Internal server error"),
        },
{
    if !valid_object_id(id) {
        return Err(ErrorResponse::new(STATUS_BAD_REQUEST, "Invalid ID provided."));
    }
    match deleted {
        Ok(Some(_)) => Ok(
            DeleteUserResponse {
                status: STATUS_OK,
                message: "User deleted successfully".to_owned(),
            },
        ),
        Ok(None) => Err(ErrorResponse::new(STATUS_NOT_FOUND, "User not found")),
        Err(_) => Err(ErrorResponse::new(STATUS_INTERNAL_SERVER_ERROR, "Internal server error")),
    }
}

/// The routes of the user handlers. Listing all users is kept for
/// administration and is not served.
pub fn user_routes() -> (res: Vec<Route>)
    ensures
        serve(
            res@,
            seq![
                Handler::Setup,
                Handler::Login,
                Handler::GetUser,
                Handler::UpdateUser,
                Handler::DeleteUser,
            ],
        ),
{
    let mut routes: Vec<Route> = Vec::new();
    routes.push(Handler::Setup.route());
    routes.push(Handler::Login.route());
    routes.push(Handler::GetUser.route());
    routes.push(Handler::UpdateUser.route());
    routes.push(Handler::DeleteUser.route());
    routes
}

} // verus!
