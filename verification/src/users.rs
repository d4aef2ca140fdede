//! The rules of the user store: which queries find a user, when an email is
//! taken, and what an update changes.

use crate::encoding::{is_object_id, same_id, valid_object_id};
use crate::errors::ErrorKind;
use crate::models::User;
use vstd::prelude::*;
use vstd::string::*;

verus! {

/// The queries the user store is asked.
#[derive(Debug)]
pub enum UserFilter {
    /// Every user.
    All,
    /// The user with this identifier.
    Id(String),
    /// The user with this email.
    Email(String),
}

impl UserFilter {
    /// Whether a user with these values answers this query.
    pub open spec fn matches(&self, id: Seq<char>, email: Seq<char>) -> bool {
        match self {
            UserFilter::All => true,
            UserFilter::Id(wanted) => same_id(wanted@, id),
            UserFilter::Email(wanted) => wanted@ == email,
        }
    }
}

/// The fields an update sets on the user with the identifier `id`.
#[derive(Debug)]
pub struct UserUpdate {
    pub id: String,
    pub email: Option<String>,
    pub password: Option<String>,
}

/// Why a user could not be created or addressed.
#[derive(Debug, Clone, Copy, PartialEq, Eq)]
pub enum UserError {
    /// The identifier is not one of a stored record.
    InvalidId,
    /// A user with this email exists already.
    AlreadyExists,
}

impl UserError {
    /// The kind a caller is told.
    pub open spec fn spec_kind(&self) -> ErrorKind {
        match self {
            UserError::InvalidId => ErrorKind::Validation,
            UserError::AlreadyExists => ErrorKind::Conflict,
        }
    }

    /// The kind a caller is told.
    #[verifier::when_used_as_spec(spec_kind)]
    pub fn kind(&self) -> (res: ErrorKind)
        ensures
            res == self.spec_kind(),
    {
        match self {
            UserError::InvalidId => ErrorKind::Validation,
            UserError::AlreadyExists => ErrorKind::Conflict,
        }
    }

    /// What a person reads about this error.
    pub fn message(&self) -> (res: String)
        ensures
            self is InvalidId ==> res@ == "Invalid ID provided."@,
            self is AlreadyExists ==> res@ == "A user with this email already exists."@,
    {
        match self {
            UserError::InvalidId => "Invalid ID provided.".to_owned(),
            UserError::AlreadyExists => "A user with this email already exists.".to_owned(),
        }
    }
}

/// Mathematical content of a user record.
pub struct UserView {
    pub id: Seq<char>,
    pub email: Seq<char>,
    pub password: Seq<char>,
    pub created_at: Seq<char>,
}

impl View for User {
    type V = UserView;

    open spec fn view(&self) -> UserView {
        UserView {
            id: self.id@,
            email: self.email@,
            password: self.password@,
            created_at: self.created_at@,
        }
    }
}

/// An optional text as an owned string.
fn owned(text: Option<&str>) -> (res: Option<String>)
    ensures
        res is Some <==> text is Some,
        res matches Some(s) ==> s@ == text->Some_0@,
{
    match text {
        Some(text) => Some(text.to_owned()),
        None => None,
    }
}

/// The rules of the user store.
#[derive(Debug)]
pub struct UserRepository {}

impl UserRepository {
    pub fn new() -> (res: UserRepository) {
        UserRepository {}
    }

    /// Makes the record to store for a new user, unless the look for a user
    /// with the same email `existing` found one.
    pub fn create_user(
        &self,
        existing: Option<&User>,
        id: &str,
        email: &str,
        password: &str,
        created_at: &str,
    ) -> (res: Result<User, UserError>)
        ensures
            existing is Some ==> res == Err::<User, UserError>(UserError::AlreadyExists),
            existing is None && !is_object_id(id@) ==> res == Err::<User, UserError>(
                UserError::InvalidId,
            ),
            existing is None && is_object_id(id@) ==> (res matches Ok(user) && user.id@ == id@
                && user.email@ == email@ && user.password@ == password@ && user.created_at@
                == created_at@),
    {
        if existing.is_some() {
            return Err(UserError::AlreadyExists);
        }
        if !valid_object_id(id) {
            return Err(UserError::InvalidId);
        }
        Ok(
            User {
                id: id.to_owned(),
                email: email.to_owned(),
                password: password.to_owned(),
                created_at: created_at.to_owned(),
            },
        )
    }

    /// The query for the user `id`.
    pub fn get_user_by_id(&self, id: &str) -> (res: Result<UserFilter, UserError>)
        ensures
            !is_object_id(id@) ==> res == Err::<UserFilter, UserError>(UserError::InvalidId),
            is_object_id(id@) ==> (res matches Ok(UserFilter::Id(wanted)) && wanted@ == id@),
            res matches Ok(filter) ==> forall|user: Seq<char>, email: Seq<char>|
                filter.matches(user, email) <==> same_id(id@, user),
    {
        if !valid_object_id(id) {
            return Err(UserError::InvalidId);
        }
        Ok(UserFilter::Id(id.to_owned()))
    }

    /// The query for the user with the email `email`.
    pub fn get_user_by_email(&self, email: &str) -> (res: UserFilter)
        ensures
            res matches UserFilter::Email(wanted) && wanted@ == email@,
            forall|user: Seq<char>, other: Seq<char>| res.matches(user, other) <==> other == email@,
    {
        UserFilter::Email(email.to_owned())
    }

    /// The update to send to the store, or `Ok(None)` where neither an email
    /// nor a password is given and the store is not to be asked at all.
    pub fn update_user(&self, id: &str, email: Option<&str>, password: Option<&str>) -> (res:
        Result<Option<UserUpdate>, UserError>)
        ensures
            !is_object_id(id@) ==> (res matches Err(e) && e == UserError::InvalidId),
            is_object_id(id@) && email is None && password is None ==> res matches Ok(None),
            is_object_id(id@) && (email is Some || password is Some) ==> (res matches Ok(
                Some(update),
            ) && {
                &&& update.id@ == id@
                &&& update.email is Some <==> email is Some
                &&& update.email matches Some(e) ==> e@ == email->Some_0@
                &&& update.password is Some <==> password is Some
                &&& update.password matches Some(p) ==> p@ == password->Some_0@
            }),
    {
        if !valid_object_id(id) {
            return Err(UserError::InvalidId);
        }
        if email.is_none() && password.is_none() {
            return Ok(None);
        }
        Ok(Some(UserUpdate { id: id.to_owned(), email: owned(email), password: owned(password) }))
    }

    /// The query for the user to delete.
    pub fn delete_user(&self, id: &str) -> (res: Result<UserFilter, UserError>)
        ensures
            !is_object_id(id@) ==> res == Err::<UserFilter, UserError>(UserError::InvalidId),
            is_object_id(id@) ==> (res matches Ok(UserFilter::Id(wanted)) && wanted@ == id@),
    {
        self.get_user_by_id(id)
    }

    /// The query for all users.
    pub fn list_users(&self) -> (res: UserFilter)
        ensures
            res is All,
            forall|user: Seq<char>, email: Seq<char>| res.matches(user, email),
    {
        UserFilter::All
    }
}

} // verus!
