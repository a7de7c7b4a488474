//! Account sign-in and registration decisions: password checking against
//! stored bcrypt hashes, and the session token a successful check earns.
//!
//! Storage stays outside: callers hand in what the account table returned
//! and perform the insert a registration decision asks for.

use vstd::prelude::*;
use crate::errors::BizKind;
use crate::errors::Cause;
use crate::errors::Kind;
use crate::errors::ServiceError;
use crate::jwt::TokenCodec;
use crate::jwt::decoded_of;
use crate::jwt::token_of;

verus! {

/// How long a session token lives: thirty hours, in seconds.
pub const TOKEN_TTL_SECONDS: i64 = 30 * 60 * 60;

/// The slice of an account row that sign-in reads: the key, the login name,
/// and the bcrypt hash stored in the password column.
#[derive(Debug)]
pub struct Account {
    pub id: i64,
    pub username: String,
    pub password: String,
}

/// The credentials a sign-in or registration request carries.
#[derive(Debug)]
pub struct ReqBodyForAuth {
    pub username: String,
    pub password: String,
}

/// The identity a successful authentication reports back.
#[derive(Debug)]
pub struct RespBodyForAuth {
    pub user_id: i64,
    pub username: String,
}

/// The verdict bcrypt reaches for a password against a stored hash: a pure
/// function of the two alone; a malformed hash yields no verdict.
pub uninterp spec fn bcrypt_check(password: Seq<char>, hash: Seq<char>) -> Option<bool>;

/// Relies on bcrypt::verify: it recomputes the hash from the password and
/// the salt embedded in the stored hash, so the verdict depends on the two
/// strings alone, and a hash it cannot parse is an error, mapped to no
/// verdict here.
#[verifier::external_body]
fn verify_password(password: &str, hashed: &str) -> (r: Option<bool>)
    ensures
        r == bcrypt_check(password@, hashed@),
{
    match bcrypt::verify(password, hashed) {
        Ok(matched) => Some(matched),
        Err(_) => None,
    }
}

/// Relies on bcrypt::hash with the default cost: the salt is drawn fresh on
/// every call, so nothing relates two hashes of one password; but any hash
/// it hands back verifies against the password that produced it.
#[verifier::external_body]
fn hash_password(password: &str) -> (r: Option<String>)
    ensures
        r matches Some(h) ==> bcrypt_check(password@, h@) == Some(true),
{
    bcrypt::hash(password, bcrypt::DEFAULT_COST).ok()
}

/// A session for `user_id` starting at `now`: the signed token and its
/// expiry, thirty hours out.
pub fn grant_session(codec: &TokenCodec, user_id: i64, now: i64) -> (r: (String, i64))
    requires
        now <= i64::MAX - TOKEN_TTL_SECONDS,
    ensures
        r.1 == now + TOKEN_TTL_SECONDS,
        r.0@ == token_of(user_id as int, r.1 as int, codec.secret@),
        decoded_of(r.0@, codec.secret@) == Some((user_id as int, r.1 as int)),
{
    let expires_at = now + TOKEN_TTL_SECONDS;
    let token = codec.issue(user_id, TOKEN_TTL_SECONDS, now);
    (token, expires_at)
}

/// What sign-in decided for one request.
pub enum LoginOutcome {
    /// The password matched: a session token and its expiry, for the
    /// transport cookie.
    Granted { token: String, expires_at: i64 },
    /// No such account, or the password did not match.
    Denied { error: ServiceError },
    /// The stored hash could not be checked at all.
    Failed { error: ServiceError },
}

/// The sign-in decision, given whatever the account table returned for the
/// requested name. An absent account and a mismatched password are both
/// authorization failures; a stored hash that cannot be checked is an
/// infrastructure failure; a match earns a session.
pub fn decide_login(codec: &TokenCodec, stored: Option<&Account>, password: &str, now: i64) -> (r:
    LoginOutcome)
    requires
        now <= i64::MAX - TOKEN_TTL_SECONDS,
    ensures
        match stored {
            None => r matches LoginOutcome::Denied { error } && error.kind == Kind::BizError(
                BizKind::AuthorizationFailed,
            ) && error.message@ == "User does not exist"@,
            Some(account) => match bcrypt_check(password@, account.password@) {
                Some(true) => r matches LoginOutcome::Granted { token, expires_at } && expires_at
                    == now + TOKEN_TTL_SECONDS && token@ == token_of(
                    account.id as int,
                    expires_at as int,
                    codec.secret@,
                ) && decoded_of(token@, codec.secret@) == Some(
                    (account.id as int, expires_at as int),
                ),
                Some(false) => r matches LoginOutcome::Denied { error } && error.kind
                    == Kind::BizError(BizKind::AuthorizationFailed),
                None => r matches LoginOutcome::Failed { error } && error.kind
                    == Kind::InfraError,
            },
        },
{
    match stored {
        None => LoginOutcome::Denied {
            error: ServiceError::build().belong(Kind::BizError(BizKind::AuthorizationFailed))
                .message("User does not exist").done(),
        },
        Some(account) => match verify_password(password, account.password.as_str()) {
            Some(true) => {
                let (token, expires_at) = grant_session(codec, account.id, now);
                LoginOutcome::Granted { token, expires_at }
            },
            Some(false) => LoginOutcome::Denied {
                error: ServiceError::build().belong(
                    Kind::BizError(BizKind::AuthorizationFailed),
                ).done(),
            },
            None => LoginOutcome::Failed {
                error: ServiceError::build().belong(Kind::InfraError).because(
                    Cause::Hashing("stored password hash could not be checked".to_owned()),
                ).done(),
            },
        },
    }
}

/// What registration decided before any insert happens.
pub enum RegisterStep {
    /// The name is taken; no insert may run.
    Conflict,
    /// Insert this row: the requested name with the fresh hash of the
    /// requested password.
    Insert { username: String, password_hash: String },
}

/// The registration decision, given whether the requested name already
/// exists. A taken name is a conflict; otherwise the password is hashed for
/// the caller to insert, and only the hashing machinery itself can fail.
pub fn prepare_register(username: &str, password: &str, already_exists: bool) -> (r: Result<
    RegisterStep,
    ServiceError,
>)
    ensures
        match r {
            Ok(step) => match step {
                RegisterStep::Conflict => already_exists,
                RegisterStep::Insert { username: u, password_hash: h } => !already_exists && u@
                    == username@ && bcrypt_check(password@, h@) == Some(true),
            },
            Err(e) => !already_exists && e.kind == Kind::InfraError,
        },
{
    if already_exists {
        Ok(RegisterStep::Conflict)
    } else {
        match hash_password(password) {
            Some(password_hash) => Ok(
                RegisterStep::Insert { username: username.to_owned(), password_hash },
            ),
            None => Err(
                ServiceError::build().belong(Kind::InfraError).because(
                    Cause::Hashing("password could not be hashed".to_owned()),
                ).done(),
            ),
        }
    }
}

/// The attributes of the session cookie, fixed here so every handler sets
/// the same ones: the fixed cookie name, the token as value, the token's
/// own expiry, and the hardening flags.
#[derive(Debug)]
pub struct SessionCookie {
    pub name: String,
    pub value: String,
    pub expires_at: i64,
    pub domain: String,
    pub path: String,
    pub secure: bool,
    pub http_only: bool,
    pub same_site_none: bool,
}

/// Plans the session cookie for a freshly issued token.
pub fn generate_cookie(token: String, expires_at: i64) -> (r: SessionCookie)
    ensures
        r.name@ == "auth_token"@,
        r.value == token,
        r.expires_at == expires_at,
        r.domain@ == "127.0.0.1"@,
        r.path@ == "/"@,
        r.secure,
        r.http_only,
        r.same_site_none,
{
    SessionCookie {
        name: "auth_token".to_owned(),
        value: token,
        expires_at,
        domain: "127.0.0.1".to_owned(),
        path: "/".to_owned(),
        secure: true,
        http_only: true,
        same_site_none: true,
    }
}

} // verus!
