//! What the service answers: the routes it serves, the guard that turns an
//! `Authorization` header into verified claims, and, in the two modules below,
//! the decision of every handler.
//!
//! A handler's decision comes in two parts where the store is asked in between:
//! the first validates the request and says what to ask, the second takes what
//! the store answered and says what the caller gets.

pub mod users;
pub mod vault;

use crate::auth::{
    check_form, issued, lemma_token_lifecycle, verification, verify_token, TokenClaims,
    TokenClaimsView, TOKEN_TTL,
};
use crate::paseto::{is_token_char, public_half, token_well_formed, PUBLIC_HEADER};
use crate::errors::ErrorKind;
use crate::keys::{decode_keys, decoded, is_key_pair};
use crate::models::{ErrorResponse, KeyPairDocument, STATUS_UNAUTHORIZED};
use crate::text::{bearer, bearer_token, lemma_bearer_carries, text_of_str, BEARER};
use vstd::prelude::*;

verus! {

/// `res` refuses with the status `status` and the message `message`.
pub open spec fn refuses<T>(res: Result<T, ErrorResponse>, status: u16, message: &str) -> bool {
    res matches Err(e) && e.status == status && e.message@ == message@
}

/// `res` refuses the caller for want of a subject in the token.
pub open spec fn refuses_without_subject<T>(res: Result<T, ErrorResponse>) -> bool {
    refuses(res, STATUS_UNAUTHORIZED, "Insufficient Permissions")
}

/// The refusal of a caller whose token names no subject.
pub fn insufficient_permissions() -> (res: ErrorResponse)
    ensures
        res.status == STATUS_UNAUTHORIZED,
        res.message@ == "Insufficient Permissions"@,
{
    ErrorResponse::new(STATUS_UNAUTHORIZED, "Insufficient Permissions")
}

/// The subject of verified claims, or the refusal of a caller whose token
/// names none.
pub fn subject_of(claims: &TokenClaims) -> (res: Result<&str, ErrorResponse>)
    ensures
        claims.subject is None ==> refuses_without_subject(res),
        claims.subject matches Some(subject) ==> (res matches Ok(s) && s@ == subject@),
{
    match &claims.subject {
        Some(subject) => Ok(subject.as_str()),
        None => Err(insufficient_permissions()),
    }
}

/// The HTTP methods of the routes.
#[derive(Debug, Clone, Copy, PartialEq, Eq)]
pub enum Method {
    Get,
    Post,
    Put,
    Delete,
}

/// The handlers of the service.
#[derive(Debug, Clone, Copy, PartialEq, Eq)]
pub enum Handler {
    Setup,
    Login,
    GetUser,
    UpdateUser,
    DeleteUser,
    CreateSecret,
    ListEntries,
    GetEntry,
    GetEntryByAuthor,
    DeleteEntry,
}

/// A route: the method and path under which a handler is served, and whether a
/// verified token is asked for.
#[derive(Debug, Clone, Copy)]
pub struct Route {
    pub method: Method,
    pub path: &'static str,
    pub handler: Handler,
    pub guarded: bool,
}

impl Handler {
    /// The method this handler is served under.
    pub open spec fn method(self) -> Method {
        match self {
            Handler::Setup | Handler::Login | Handler::CreateSecret => Method::Post,
            Handler::UpdateUser => Method::Put,
            Handler::DeleteUser | Handler::DeleteEntry => Method::Delete,
            _ => Method::Get,
        }
    }

    /// The path this handler is served under.
    pub open spec fn path(self) -> Seq<char> {
        match self {
            Handler::Setup => "/setup"@,
            Handler::Login => "/login"@,
            Handler::GetUser => "/users/<id>"@,
            Handler::UpdateUser => "/update/<id>"@,
            Handler::DeleteUser => "/delete/user/<id>"@,
            Handler::CreateSecret => "/create/vault/entry"@,
            Handler::ListEntries => "/retrieve/vault/entries"@,
            Handler::GetEntry => "/retrieve/vault/entries/<id>"@,
            Handler::GetEntryByAuthor => "/retrieve/vault/entry/<created_by>"@,
            Handler::DeleteEntry => "/delete/<id>"@,
        }
    }

    /// Whether this handler works on the secrets of the caller, and so asks for
    /// a verified token.
    pub open spec fn guarded(self) -> bool {
        match self {
            Handler::CreateSecret
            | Handler::ListEntries
            | Handler::GetEntry
            | Handler::GetEntryByAuthor
            | Handler::DeleteEntry => true,
            _ => false,
        }
    }

    /// The route of this handler.
    pub fn route(self) -> (res: Route)
        ensures
            res.serves(self),
    {
        match self {
            Handler::Setup => Route {
                method: Method::Post,
                path: "/setup",
                handler: self,
                guarded: false,
            },
            Handler::Login => Route {
                method: Method::Post,
                path: "/login",
                handler: self,
                guarded: false,
            },
            Handler::GetUser => Route {
                method: Method::Get,
                path: "/users/<id>",
                handler: self,
                guarded: false,
            },
            Handler::UpdateUser => Route {
                method: Method::Put,
                path: "/update/<id>",
                handler: self,
                guarded: false,
            },
            Handler::DeleteUser => Route {
                method: Method::Delete,
                path: "/delete/user/<id>",
                handler: self,
                guarded: false,
            },
            Handler::CreateSecret => Route {
                method: Method::Post,
                path: "/create/vault/entry",
                handler: self,
                guarded: true,
            },
            Handler::ListEntries => Route {
                method: Method::Get,
                path: "/retrieve/vault/entries",
                handler: self,
                guarded: true,
            },
            Handler::GetEntry => Route {
                method: Method::Get,
                path: "/retrieve/vault/entries/<id>",
                handler: self,
                guarded: true,
            },
            Handler::GetEntryByAuthor => Route {
                method: Method::Get,
                path: "/retrieve/vault/entry/<created_by>",
                handler: self,
                guarded: true,
            },
            Handler::DeleteEntry => Route {
                method: Method::Delete,
                path: "/delete/<id>",
                handler: self,
                guarded: true,
            },
        }
    }
}

impl Route {
    /// This is the route of `handler`.
    pub open spec fn serves(&self, handler: Handler) -> bool {
        &&& self.handler == handler
        &&& self.method == handler.method()
        &&& self.path@ == handler.path()
        &&& self.guarded == handler.guarded()
    }
}

/// `routes` are the routes of `handlers`, in their order.
pub open spec fn serve(routes: Seq<Route>, handlers: Seq<Handler>) -> bool {
    &&& routes.len() == handlers.len()
    &&& forall|i: int| 0 <= i < routes.len() ==> (#[trigger] routes[i]).serves(handlers[i])
}

/// The answer of the health check.
pub fn health_check() -> (res: String)
    ensures
        res@ == "Secrets management service is running..."@,
{
    "Secrets management service is running...".to_owned()
}

/// The answer to a preflight request: an empty body.
pub fn _options() -> (res: &'static str)
    ensures
        res@ == ""@,
{
    ""
}

/// Verified claims, as a guarded handler receives them.
#[derive(Debug)]
pub struct TokenGuard(pub TokenClaims);

/// What the guard decides for a header, a stored key pair and a time: the
/// claims of the token in the header, or the kind of the refusal.
pub open spec fn guard_decision(
    authorization: Option<Seq<char>>,
    key_pair: KeyPairDocument,
    now: int,
) -> Result<TokenClaimsView, ErrorKind> {
    match presented(authorization) {
        None => Err(ErrorKind::Auth),
        Some(token) => admission(token, key_pair, now),
    }
}

/// The token that a request presents: what its `Authorization` header carries
/// under the bearer scheme, where that has the form of a token.
pub open spec fn presented(authorization: Option<Seq<char>>) -> Option<Seq<char>> {
    match authorization {
        None => None,
        Some(header) => match bearer(header) {
            None => None,
            Some(token) => if token_well_formed(token) {
                Some(token)
            } else {
                None
            },
        },
    }
}

/// What the guard decides for a presented token once the stored key pair is
/// at hand.
pub open spec fn admission(token: Seq<char>, key_pair: KeyPairDocument, now: int) -> Result<
    TokenClaimsView,
    ErrorKind,
> {
    match decoded(key_pair) {
        None => Err(ErrorKind::Crypto),
        Some(keys) => match verification(keys.1, token, now) {
            Ok(claims) => Ok(claims),
            Err(e) => Err(e.spec_kind()),
        },
    }
}

/// A request that presents an issued token under the bearer scheme passes the
/// guard until the token expires, with the subject the token was issued for,
/// and is refused as unauthorised from then on.
pub proof fn lemma_issued_token_passes_the_guard(
    token: Seq<char>,
    key_pair: KeyPairDocument,
    subject: Seq<char>,
    nonce: Seq<char>,
    issued_at: int,
    now: int,
)
    requires
        is_key_pair(key_pair),
        issued(token, public_half(decoded(key_pair)->Some_0.0), subject, nonce, issued_at),
    ensures
        presented(Some(BEARER@ + token)) == Some(token),
        now <= issued_at + TOKEN_TTL ==> (guard_decision(Some(BEARER@ + token), key_pair, now)
            matches Ok(claims) && claims.subject == Some(subject) && claims.expiration
            == issued_at + TOKEN_TTL),
        now > issued_at + TOKEN_TTL ==> guard_decision(Some(BEARER@ + token), key_pair, now)
            == Err::<TokenClaimsView, ErrorKind>(ErrorKind::Auth),
{
    reveal_strlit("v4.public.");
    assert(token.len() >= 10 && token[0] == 'v') by {
        assert(PUBLIC_HEADER@.is_prefix_of(token));
        assert(token[0] == PUBLIC_HEADER@[0]);
    }
    assert(is_token_char(token.first()));
    assert(is_token_char(token.last()));
    lemma_bearer_carries(token);
    lemma_token_lifecycle(
        token,
        public_half(decoded(key_pair)->Some_0.0),
        subject,
        nonce,
        issued_at,
        now,
    );
}

impl TokenGuard {
    /// Reads the token that a request presents. This takes no key: a missing
    /// header, a header without the bearer scheme and a text that is no token
    /// are refused as unauthorised before any key is looked up.
    pub fn presented_token(authorization: Option<&str>) -> (res: Result<String, ErrorKind>)
        ensures
            res is Ok <==> presented(text_of_str(authorization)) is Some,
            res matches Ok(token) ==> presented(text_of_str(authorization)) == Some(token@),
            res matches Err(kind) ==> kind == ErrorKind::Auth,
    {
        let header = match authorization {
            Some(header) => header,
            None => {
                return Err(ErrorKind::Auth);
            },
        };
        let token = match bearer_token(header) {
            Some(token) => token,
            None => {
                return Err(ErrorKind::Auth);
            },
        };
        match check_form(token.as_str()) {
            Ok(()) => Ok(token),
            Err(e) => Err(e.kind()),
        }
    }

    /// Verifies a presented token under the stored key pair at the time `now`.
    ///
    /// Key material that does not decode is a fault of the service. Every
    /// failure of the token is refused as unauthorised.
    pub fn verify(token: &str, key_pair: &KeyPairDocument, now: i64) -> (res: Result<
        TokenGuard,
        ErrorKind,
    >)
        ensures
            res matches Ok(guard) ==> admission(token@, *key_pair, now as int) == Ok::<
                TokenClaimsView,
                ErrorKind,
            >(guard.0@),
            res matches Err(kind) ==> admission(token@, *key_pair, now as int) == Err::<
                TokenClaimsView,
                ErrorKind,
            >(kind),
    {
        let keys = match decode_keys(key_pair) {
            Ok(keys) => keys,
            Err(_) => {
                return Err(ErrorKind::Crypto);
            },
        };
        match verify_token(token, keys.public.as_slice(), now) {
            Ok(claims) => Ok(TokenGuard(claims)),
            Err(e) => Err(e.kind()),
        }
    }

    /// Turns the `Authorization` header of a request into verified claims.
    ///
    /// A missing header, a header without the bearer scheme and every failure
    /// of the token itself are refused alike, as unauthorised; which of them it
    /// was is not told. The token's form is checked before the key pair is
    /// touched; for a token of the right form, key material that does not
    /// decode is a fault of the service.
    pub fn from_request(authorization: Option<&str>, key_pair: &KeyPairDocument, now: i64) -> (res:
        Result<TokenGuard, ErrorKind>)
        ensures
            res matches Ok(guard) ==> guard_decision(
                text_of_str(authorization),
                *key_pair,
                now as int,
            ) == Ok::<TokenClaimsView, ErrorKind>(guard.0@),
            res matches Err(kind) ==> guard_decision(
                text_of_str(authorization),
                *key_pair,
                now as int,
            ) == Err::<TokenClaimsView, ErrorKind>(kind),
    {
        let token = match TokenGuard::presented_token(authorization) {
            Ok(token) => token,
            Err(kind) => {
                return Err(kind);
            },
        };
        TokenGuard::verify(token.as_str(), key_pair, now)
    }
}

/// The answer to a request that the guard refused.
pub fn guard_refusal(kind: ErrorKind) -> (res: ErrorResponse)
    ensures
        res.status == kind.spec_status(),
        kind == ErrorKind::Auth ==> res.message@ == "Unauthorized access."@,
        kind != ErrorKind::Auth ==> res.message@ == "Internal Server Error."@,
{
    match kind {
        ErrorKind::Auth => ErrorResponse::new(kind.status(), "Unauthorized access."),
        _ => ErrorResponse::new(kind.status(), "Internal Server Error."),
    }
}

} // verus!
