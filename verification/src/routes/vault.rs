//! The decisions of the handlers that work on a caller's secrets. Each takes
//! the verified claims of the caller; the subject they name scopes everything
//! the handler asks of the store and everything it answers.

use crate::auth::TokenClaims;
use crate::encoding::{is_object_id, same_id, valid_object_id};
use crate::errors::PersistenceError;
use crate::models::{
    CreateSecretResponse, DeleteSecretResponse, ErrorResponse, Secret, Vault, STATUS_BAD_REQUEST,
    STATUS_INTERNAL_SERVER_ERROR, STATUS_NOT_FOUND, STATUS_OK,
};
use crate::routes::{
    insufficient_permissions, refuses, refuses_without_subject, serve, subject_of, Handler, Route,
};
use crate::text::{blank, is_blank, same_text};
use crate::vault::{
    listable, listing, revealed, seals, views, VaultFilter, VaultRepository,
};
use vstd::prelude::*;
use vstd::string::*;

verus! {

/// Creates a secret of the caller: makes the record to insert, owned by the
/// subject of the claims and with its value sealed.
pub fn create_secret(
    repo: &VaultRepository,
    secret: &Secret,
    claims: &TokenClaims,
    id: &str,
    created_at: &str,
) -> (res: Result<Vault, ErrorResponse>)
    ensures
        claims.subject is None ==> refuses_without_subject(res),
        claims.subject matches Some(subject) ==> {
            &&& res is Ok <==> is_object_id(id@) && repo.sealable(secret.value@)
            &&& res is Err ==> refuses(
                res,
                STATUS_INTERNAL_SERVER_ERROR,
                "Failed to create vault entry",
            )
            &&& res matches Ok(record) ==> {
                &&& record.id@ == id@
                &&& record.key@ == secret.key@
                &&& record.created_by@ == subject@
                &&& record.created_at@ == created_at@
                &&& seals(record.value@, secret.value@, repo.encryption_key@)
                &&& record.value@ != secret.value@
            }
        },
{
    let created_by = match subject_of(claims) {
        Ok(subject) => subject,
        Err(e) => {
            return Err(e);
        },
    };
    match repo.create_secret(
        id,
        secret.key.as_str(),
        secret.value.as_str(),
        created_by,
        created_at,
    ) {
        Ok(record) => Ok(record),
        Err(_) => Err(
            ErrorResponse::new(STATUS_INTERNAL_SERVER_ERROR, "Failed to create vault entry"),
        ),
    }
}

/// The answer to the creation of a secret once the store has inserted the
/// record, or has failed to.
pub fn create_secret_reply(inserted: &Result<(), PersistenceError>) -> (res: Result<
    CreateSecretResponse,
    ErrorResponse,
>)
    ensures
        inserted is Ok ==> (res matches Ok(r) && r.status == STATUS_OK && r.message@
            == "Vault entry created successfully"@),
        inserted is Err ==> refuses(
            res,
            STATUS_INTERNAL_SERVER_ERROR,
            "Failed to create vault entry",
        ),
{
    match inserted {
        Ok(_) => Ok(
            CreateSecretResponse {
                status: STATUS_OK,
                message: "Vault entry created successfully".to_owned(),
            },
        ),
        Err(_) => Err(
            ErrorResponse::new(STATUS_INTERNAL_SERVER_ERROR, "Failed to create vault entry"),
        ),
    }
}

/// What to ask the store for the listing of the caller's secrets.
pub fn list_entries_query(repo: &VaultRepository, claims: &TokenClaims) -> (res: Result<
    VaultFilter,
    ErrorResponse,
>)
    ensures
        claims.subject is None ==> refuses_without_subject(res),
        claims.subject matches Some(subject) ==> (res matches Ok(filter) && filter.id is None
            && filter.created_by@ == subject@),
{
    match subject_of(claims) {
        Ok(subject) => Ok(repo.owner_filter(subject)),
        Err(e) => Err(e),
    }
}

/// The listing of the caller's secrets, given what the store found. Nothing
/// found is an empty listing, not an error. A secret of the caller that cannot
/// be revealed fails the listing as a fault of the service.
pub fn list_entries(
    repo: &VaultRepository,
    claims: &TokenClaims,
    found: &Result<Vec<Vault>, PersistenceError>,
) -> (res: Result<Vec<Vault>, ErrorResponse>)
    ensures
        claims.subject is None ==> refuses_without_subject(res),
        claims.subject matches Some(subject) ==> match found {
            Ok(records) if listable(views(records@), subject@, repo.encryption_key@) => {
                res matches Ok(entries) && views(entries@) == listing(
                    views(records@),
                    subject@,
                    repo.encryption_key@,
                )
            },
            _ => refuses(res, STATUS_INTERNAL_SERVER_ERROR, "Failed to retrieve vault entries."),
        },
{
    let subject = match subject_of(claims) {
        Ok(subject) => subject,
        Err(e) => {
            return Err(e);
        },
    };
    let listed = match found {
        Ok(records) => repo.list_secrets(records, subject),
        Err(_) => {
            return Err(
                ErrorResponse::new(
                    STATUS_INTERNAL_SERVER_ERROR,
                    "Failed to retrieve vault entries.",
                ),
            );
        },
    };
    match listed {
        Ok(entries) => Ok(entries),
        Err(_) => Err(
            ErrorResponse::new(STATUS_INTERNAL_SERVER_ERROR, "Failed to retrieve vault entries."),
        ),
    }
}

/// What to ask the store for the caller's secret `id`: refused where `id`
/// cannot name a record, and where the token names no subject.
pub fn get_entry_query(repo: &VaultRepository, id: &str, claims: &TokenClaims) -> (res: Result<
    VaultFilter,
    ErrorResponse,
>)
    ensures
        !is_object_id(id@) ==> refuses(res, STATUS_BAD_REQUEST, "Invalid ID provided."),
        is_object_id(id@) && claims.subject is None ==> refuses_without_subject(res),
        is_object_id(id@) ==> (claims.subject matches Some(subject) ==> (res matches Ok(filter)
            && filter.created_by@ == subject@ && filter.id is Some && filter.id->Some_0@
            == id@)),
{
    if !valid_object_id(id) {
        return Err(ErrorResponse::new(STATUS_BAD_REQUEST, "Invalid ID provided."));
    }
    let subject = match subject_of(claims) {
        Ok(subject) => subject,
        Err(e) => {
            return Err(e);
        },
    };
    match repo.secret_filter(id, subject) {
        Ok(filter) => Ok(filter),
        Err(_) => Err(ErrorResponse::new(STATUS_BAD_REQUEST, "Invalid ID provided.")),
    }
}

/// The caller's secret `id`, given what the store found.
///
/// A record of another owner is answered like no record at all, so that a
/// caller cannot learn which identifiers exist.
pub fn get_entry(
    repo: &VaultRepository,
    id: &str,
    claims: &TokenClaims,
    found: &Result<Option<Vault>, PersistenceError>,
) -> (res: Result<String, ErrorResponse>)
    ensures
        !is_object_id(id@) ==> refuses(res, STATUS_BAD_REQUEST, "Invalid ID provided."),
        is_object_id(id@) && claims.subject is None ==> refuses_without_subject(res),
        is_object_id(id@) ==> (claims.subject matches Some(subject) ==> match found {
            Err(_) => refuses(res, STATUS_INTERNAL_SERVER_ERROR, "Failed to retrieve vault entry."),
            Ok(Some(record)) if same_id(record.id@, id@) && record.created_by@ == subject@ => {
                match revealed(record.value@, repo.encryption_key@) {
                    Ok(value) => res matches Ok(text) && text@ == value,
                    Err(_) => refuses(
                        res,
                        STATUS_INTERNAL_SERVER_ERROR,
                        "Failed to retrieve vault entry.",
                    ),
                }
            },
            _ => refuses(res, STATUS_NOT_FOUND, "Vault entry not found."),
        }),
{
    if !valid_object_id(id) {
        return Err(ErrorResponse::new(STATUS_BAD_REQUEST, "Invalid ID provided."));
    }
    let subject = match subject_of(claims) {
        Ok(subject) => subject,
        Err(e) => {
            return Err(e);
        },
    };
    let record = match found {
        Ok(Some(record)) => Some(record),
        Ok(None) => None,
        Err(_) => {
            return Err(
                ErrorResponse::new(STATUS_INTERNAL_SERVER_ERROR, "Failed to retrieve vault entry."),
            );
        },
    };
    match repo.get_secret_by_id(record, id, subject) {
        Ok(Some(entry)) => Ok(entry),
        Ok(None) => Err(ErrorResponse::new(STATUS_NOT_FOUND, "Vault entry not found.")),
        Err(_) => Err(
            ErrorResponse::new(STATUS_INTERNAL_SERVER_ERROR, "Failed to retrieve vault entry."),
        ),
    }
}

/// What to ask the store for the secrets of the author `created_by`.
///
/// Refused where the author's name is blank, and where the caller is not that
/// author: a listing by author shows exactly what the author's own listing
/// shows, to nobody else.
pub fn get_entry_by_author_query(
    repo: &VaultRepository,
    created_by: &str,
    claims: &TokenClaims,
) -> (res: Result<VaultFilter, ErrorResponse>)
    ensures
        blank(created_by@) ==> refuses(res, STATUS_BAD_REQUEST, "Invalid author name provided."),
        !blank(created_by@) ==> match claims.subject {
            Some(subject) if subject@ == created_by@ => res matches Ok(filter) && filter.id is None
                && filter.created_by@ == created_by@,
            _ => refuses_without_subject(res),
        },
{
    if is_blank(created_by) {
        return Err(ErrorResponse::new(STATUS_BAD_REQUEST, "Invalid author name provided."));
    }
    let subject = match subject_of(claims) {
        Ok(subject) => subject,
        Err(e) => {
            return Err(e);
        },
    };
    if !same_text(subject, created_by) {
        return Err(insufficient_permissions());
    }
    Ok(repo.owner_filter(created_by))
}

/// The secrets of the author `created_by`, given what the store found. An
/// author without secrets is answered as not found, and a secret that cannot
/// be revealed fails the listing as a fault of the service.
pub fn get_entry_by_author(
    repo: &VaultRepository,
    created_by: &str,
    claims: &TokenClaims,
    found: &Result<Vec<Vault>, PersistenceError>,
) -> (res: Result<Vec<Vault>, ErrorResponse>)
    ensures
        blank(created_by@) ==> refuses(res, STATUS_BAD_REQUEST, "Invalid author name provided."),
        !blank(created_by@) ==> match claims.subject {
            Some(subject) if subject@ == created_by@ => match found {
                Ok(records) if listable(views(records@), created_by@, repo.encryption_key@) => {
                    let shown = listing(views(records@), created_by@, repo.encryption_key@);
                    if shown.len() == 0 {
                        refuses(res, STATUS_NOT_FOUND, "No vault entries found.")
                    } else {
                        res matches Ok(entries) && views(entries@) == shown
                    }
                },
                _ => refuses(
                    res,
                    STATUS_INTERNAL_SERVER_ERROR,
                    "Failed to retrieve vault entries.",
                ),
            },
            _ => refuses_without_subject(res),
        },
{
    if is_blank(created_by) {
        return Err(ErrorResponse::new(STATUS_BAD_REQUEST, "Invalid author name provided."));
    }
    let subject = match subject_of(claims) {
        Ok(subject) => subject,
        Err(e) => {
            return Err(e);
        },
    };
    if !same_text(subject, created_by) {
        return Err(insufficient_permissions());
    }
    match found {
        Ok(records) => match repo.get_secret_by_author(records, created_by) {
            Ok(secrets) => {
                if secrets.len() == 0 {
                    Err(ErrorResponse::new(STATUS_NOT_FOUND, "No vault entries found."))
                } else {
                    Ok(secrets)
                }
            },
            Err(_) => Err(
                ErrorResponse::new(
                    STATUS_INTERNAL_SERVER_ERROR,
                    "Failed to retrieve vault entries.",
                ),
            ),
        },
        Err(_) => Err(
            ErrorResponse::new(STATUS_INTERNAL_SERVER_ERROR, "Failed to retrieve vault entries."),
        ),
    }
}

/// What to ask the store to delete for the caller's secret `id`: refused where
/// `id` cannot name a record, and where the token names no subject.
pub fn delete_entry_query(repo: &VaultRepository, id: &str, claims: &TokenClaims) -> (res: Result<
    VaultFilter,
    ErrorResponse,
>)
    ensures
        !is_object_id(id@) ==> refuses(
            res,
            STATUS_BAD_REQUEST,
            "Invalid ID provided for deletion.",
        ),
        is_object_id(id@) && claims.subject is None ==> refuses_without_subject(res),
        is_object_id(id@) ==> (claims.subject matches Some(subject) ==> (res matches Ok(filter)
            && filter.created_by@ == subject@ && filter.id is Some && filter.id->Some_0@
            == id@)),
{
    if !valid_object_id(id) {
        return Err(ErrorResponse::new(STATUS_BAD_REQUEST, "Invalid ID provided for deletion."));
    }
    let subject = match subject_of(claims) {
        Ok(subject) => subject,
        Err(e) => {
            return Err(e);
        },
    };
    match repo.secret_filter(id, subject) {
        Ok(filter) => Ok(filter),
        Err(_) => Err(
            ErrorResponse::new(STATUS_BAD_REQUEST, "Invalid ID provided for deletion."),
        ),
    }
}

/// The answer to the deletion of the caller's secret `id`, given the record
/// the store removed.
pub fn delete_entry(
    repo: &VaultRepository,
    id: &str,
    claims: &TokenClaims,
    deleted: &Result<Option<Vault>, PersistenceError>,
) -> (res: Result<DeleteSecretResponse, ErrorResponse>)
    ensures
        !is_object_id(id@) ==> refuses(
            res,
            STATUS_BAD_REQUEST,
            "Invalid ID provided for deletion.",
        ),
        is_object_id(id@) && claims.subject is None ==> refuses_without_subject(res),
        is_object_id(id@) ==> (claims.subject matches Some(subject) ==> match deleted {
            Err(_) => refuses(res, STATUS_INTERNAL_SERVER_ERROR, "Failed to delete vault entry."),
            Ok(Some(record)) if same_id(record.id@, id@) && record.created_by@ == subject@ => {
                match revealed(record.value@, repo.encryption_key@) {
                    Ok(_) => res matches Ok(r) && r.status == STATUS_OK && r.message@
                        == "Vault entry deleted successfully."@,
                    Err(_) => refuses(
                        res,
                        STATUS_INTERNAL_SERVER_ERROR,
                        "Failed to delete vault entry.",
                    ),
                }
            },
            _ => refuses(res, STATUS_NOT_FOUND, "Vault entry not found."),
        }),
{
    if !valid_object_id(id) {
        return Err(ErrorResponse::new(STATUS_BAD_REQUEST, "Invalid ID provided for deletion."));
    }
    let subject = match subject_of(claims) {
        Ok(subject) => subject,
        Err(e) => {
            return Err(e);
        },
    };
    let record = match deleted {
        Ok(Some(record)) => Some(record),
        Ok(None) => None,
        Err(_) => {
            return Err(
                ErrorResponse::new(STATUS_INTERNAL_SERVER_ERROR, "Failed to delete vault entry."),
            );
        },
    };
    match repo.delete_secret(record, id, subject) {
        Ok(Some(_)) => Ok(
            DeleteSecretResponse {
                status: STATUS_OK,
                message: "Vault entry deleted successfully.".to_owned(),
            },
        ),
        Ok(None) => Err(ErrorResponse::new(STATUS_NOT_FOUND, "Vault entry not found.")),
        Err(_) => Err(
            ErrorResponse::new(STATUS_INTERNAL_SERVER_ERROR, "Failed to delete vault entry."),
        ),
    }
}

/// The routes of the vault handlers.
pub fn vault_routes() -> (res: Vec<Route>)
    ensures
        serve(
            res@,
            seq![
                Handler::CreateSecret,
                Handler::ListEntries,
                Handler::GetEntry,
                Handler::GetEntryByAuthor,
                Handler::DeleteEntry,
            ],
        ),
{
    let mut routes: Vec<Route> = Vec::new();
    routes.push(Handler::CreateSecret.route());
    routes.push(Handler::ListEntries.route());
    routes.push(Handler::GetEntry.route());
    routes.push(Handler::GetEntryByAuthor.route());
    routes.push(Handler::DeleteEntry.route());
    routes
}

} // verus!
