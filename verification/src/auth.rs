//! Signing in and registering: what is decided once the user store, the
//! password hash and the token signature are at hand.

use vstd::prelude::*;
use crate::config::Config;
use crate::id::{hyphenated, Id};
use crate::models::{Claims, LoginRequest, RegisterRequest, StoreFault, User};

verus! {

/// `bcrypt::BcryptError`, the error of the bcrypt crate. The library hands it
/// on and never looks into it.
#[verifier::external_type_specification]
#[verifier::external_body]
pub struct ExBcryptError(bcrypt::BcryptError);

/// `jsonwebtoken::errors::Error`, the error of the jsonwebtoken crate. The
/// library hands it on and never looks into it.
#[verifier::external_type_specification]
#[verifier::external_body]
pub struct ExTokenError(jsonwebtoken::errors::Error);

/// What `bcrypt::verify` makes of a password and a stored hash: whether the
/// password is the hashed one, or `None` where it reports an error (a text
/// that is no bcrypt hash).
pub uninterp spec fn password_check(password: Seq<char>, hash: Seq<char>) -> Option<bool>;

/// What `jsonwebtoken::encode` returns for the default header (HS256), the
/// claims `sub` and `exp` in this order, and the key made of the bytes of
/// `secret`; `None` where it reports an error.
pub uninterp spec fn signed_token(
    secret: Seq<char>,
    subject: Seq<char>,
    expires: usize,
) -> Option<Seq<char>>;

/// Checks a password against a stored hash with `bcrypt::verify`.
#[verifier::external_body]
fn bcrypt_verify(password: &str, hash: &str) -> (checked: Result<bool, bcrypt::BcryptError>)
    ensures
        match checked {
            Ok(same) => password_check(password@, hash@) == Some(same),
            Err(_) => password_check(password@, hash@) is None,
        },
{
    bcrypt::verify(password, hash)
}

/// Hashes a password with `bcrypt::hash` at the crate's default cost. The salt
/// is drawn at random, so two calls give two hashes; whatever hash comes
/// back, `bcrypt::verify` accepts the password for it, since it hashes the
/// password again with the cost and the salt that the hash spells out.
#[verifier::external_body]
fn bcrypt_hash(password: &str) -> (hashed: Result<String, bcrypt::BcryptError>)
    ensures
        hashed matches Ok(hash) ==> password_check(password@, hash@) == Some(true),
{
    bcrypt::hash(password, bcrypt::DEFAULT_COST)
}

/// Signs the claims with `jsonwebtoken::encode`, under the default header and
/// with the secret as an HMAC key.
#[verifier::external_body]
fn jwt_encode(secret: &str, claims: &Claims) -> (token: Result<String, jsonwebtoken::errors::Error>)
    ensures
        match token {
            Ok(text) => signed_token(secret@, claims.sub@, claims.exp) == Some(text@),
            Err(_) => signed_token(secret@, claims.sub@, claims.exp) is None,
        },
{
    let mut body = serde_json::Map::new();
    body.insert("sub".to_string(), serde_json::Value::from(claims.sub.as_str()));
    body.insert("exp".to_string(), serde_json::Value::from(claims.exp));
    jsonwebtoken::encode(
        &jsonwebtoken::Header::default(),
        &body,
        &jsonwebtoken::EncodingKey::from_secret(secret.as_bytes()),
    )
}

/// How long a session token is valid: 24 hours, in seconds.
pub const TOKEN_LIFETIME_SECONDS: i64 = 86_400;

/// Why a sign-in ends without a session.
#[derive(Clone, Copy, Debug, PartialEq, Eq, Structural)]
pub enum LoginRefusal {
    /// No such user, or not this password.
    InvalidCredentials,
    /// The user store failed, or no token could be made.
    Internal,
}

impl LoginRefusal {
    /// The status code of the reply: 401 for credentials that are not
    /// accepted, 500 for an internal fault.
    pub open spec fn code(self) -> u16 {
        match self {
            LoginRefusal::InvalidCredentials => 401,
            LoginRefusal::Internal => 500,
        }
    }

    /// What the `error` field of the reply says.
    pub open spec fn wording(self) -> Seq<char> {
        match self {
            LoginRefusal::InvalidCredentials => "Invalid credentials"@,
            LoginRefusal::Internal => "Internal server error"@,
        }
    }

    /// The status code of the reply.
    pub fn status(&self) -> (code: u16)
        ensures
            code == self.code(),
    {
        match self {
            LoginRefusal::InvalidCredentials => 401,
            LoginRefusal::Internal => 500,
        }
    }

    /// The text of the `error` field of the reply.
    pub fn error(&self) -> (text: &'static str)
        ensures
            text@ == self.wording(),
    {
        match self {
            LoginRefusal::InvalidCredentials => "Invalid credentials",
            LoginRefusal::Internal => "Internal server error",
        }
    }
}

/// A session: the signed token and the user it belongs to.
#[derive(Clone, Debug, PartialEq, Eq)]
pub struct Session {
    pub token: String,
    pub user_id: Id,
}

/// Why a registration ends without a new user.
#[derive(Clone, Copy, Debug, PartialEq, Eq, Structural)]
pub enum RegisterRefusal {
    /// The user name is taken.
    Conflict,
    /// The user store failed, or the password could not be hashed.
    Internal,
}

impl RegisterRefusal {
    /// The status code of the reply: 409 for a user name that is taken, 500
    /// for an internal fault.
    pub open spec fn code(self) -> u16 {
        match self {
            RegisterRefusal::Conflict => 409,
            RegisterRefusal::Internal => 500,
        }
    }

    /// What the `error` field of the reply says.
    pub open spec fn wording(self) -> Seq<char> {
        match self {
            RegisterRefusal::Conflict => "Username already exists"@,
            RegisterRefusal::Internal => "Internal server error"@,
        }
    }

    /// The status code of the reply.
    pub fn status(&self) -> (code: u16)
        ensures
            code == self.code(),
    {
        match self {
            RegisterRefusal::Conflict => 409,
            RegisterRefusal::Internal => 500,
        }
    }

    /// The text of the `error` field of the reply.
    pub fn error(&self) -> (text: &'static str)
        ensures
            text@ == self.wording(),
    {
        match self {
            RegisterRefusal::Conflict => "Username already exists",
            RegisterRefusal::Internal => "Internal server error",
        }
    }
}

/// The second at which a token issued at the instant `now` stops being valid:
/// 24 hours after the second that `now` falls in. An instant before 1970 has
/// no such second, nor has one whose expiry does not fit the claim.
pub open spec fn expiry(now: i64) -> Option<usize> {
    if 0 <= now && now / 1_000_000 + TOKEN_LIFETIME_SECONDS <= usize::MAX {
        Some((now / 1_000_000 + TOKEN_LIFETIME_SECONDS) as usize)
    } else {
        None
    }
}

/// The second at which a token issued at `now` stops being valid.
pub fn token_expiry(now: i64) -> (expires: Option<usize>)
    ensures
        expires == expiry(now),
{
    if now < 0 {
        return None;
    }
    let second: u64 = (now / 1_000_000 + TOKEN_LIFETIME_SECONDS) as u64;
    if second <= usize::MAX as u64 {
        Some(second as usize)
    } else {
        None
    }
}

/// The user that a sign-in is about, once the store has answered.
pub open spec fn account(found: Result<Option<User>, StoreFault>) -> Result<User, LoginRefusal> {
    match found {
        Ok(Some(user)) => Ok(user),
        Ok(None) => Err(LoginRefusal::InvalidCredentials),
        Err(_) => Err(LoginRefusal::Internal),
    }
}

/// Reads the answer of the user store: an unknown user name is a matter of
/// credentials, a fault of the store is an internal one.
pub fn find_account(found: Result<Option<User>, StoreFault>) -> (user: Result<User, LoginRefusal>)
    ensures
        user == account(found),
{
    match found {
        Ok(Some(user)) => Ok(user),
        Ok(None) => Err(LoginRefusal::InvalidCredentials),
        Err(_) => Err(LoginRefusal::Internal),
    }
}

/// Reads the outcome of a password check: only a check that ran and found the
/// password right lets the user in. A check that could not run counts as a
/// wrong password.
pub fn password_accepted(checked: Result<bool, bcrypt::BcryptError>) -> (accepted: bool)
    ensures
        accepted == (checked matches Ok(same) && same),
{
    match checked {
        Ok(same) => same,
        Err(_) => false,
    }
}

/// Makes the session out of a signed token, or an internal fault where the
/// token could not be signed.
pub fn session_for(user_id: Id, token: Result<String, jsonwebtoken::errors::Error>) -> (session:
    Result<Session, LoginRefusal>)
    ensures
        match token {
            Ok(text) => session == Ok::<Session, LoginRefusal>(Session { token: text, user_id }),
            Err(_) => session == Err::<Session, LoginRefusal>(LoginRefusal::Internal),
        },
{
    match token {
        Ok(text) => Ok(Session { token: text, user_id }),
        Err(_) => Err(LoginRefusal::Internal),
    }
}

/// What a sign-in comes to: the token and the user, or the refusal.
///
/// A fault of the user store is internal; an unknown user and a password that
/// is not accepted are invalid credentials, told apart by nothing; for an
/// accepted password a token is signed for the user's identifier, valid for 24
/// hours, and a token that cannot be made is an internal fault.
pub open spec fn login_outcome(
    found: Result<Option<User>, StoreFault>,
    password: Seq<char>,
    secret: Seq<char>,
    now: i64,
) -> Result<(Seq<char>, Id), LoginRefusal> {
    match found {
        Err(_) => Err(LoginRefusal::Internal),
        Ok(None) => Err(LoginRefusal::InvalidCredentials),
        Ok(Some(user)) => if password_check(password, user.password_hash@) == Some(true) {
            match expiry(now) {
                Some(expires) => match signed_token(secret, hyphenated(user.id.value), expires) {
                    Some(token) => Ok((token, user.id)),
                    None => Err(LoginRefusal::Internal),
                },
                None => Err(LoginRefusal::Internal),
            }
        } else {
            Err(LoginRefusal::InvalidCredentials)
        },
    }
}

/// Signs a user in. `found` is what the user store answered for the user name
/// of the request, `now` the instant of the request.
pub fn login(
    found: Result<Option<User>, StoreFault>,
    request: &LoginRequest,
    config: &Config,
    now: i64,
) -> (outcome: Result<Session, LoginRefusal>)
    ensures
        match outcome {
            Ok(session) => login_outcome(found, request.password@, config.jwt_secret@, now) == Ok::<
                (Seq<char>, Id),
                LoginRefusal,
            >((session.token@, session.user_id)),
            Err(refusal) => login_outcome(found, request.password@, config.jwt_secret@, now)
                == Err::<(Seq<char>, Id), LoginRefusal>(refusal),
        },
{
    let user = match find_account(found) {
        Ok(user) => user,
        Err(refusal) => {
            return Err(refusal);
        },
    };
    let checked = bcrypt_verify(request.password.as_str(), user.password_hash.as_str());
    if !password_accepted(checked) {
        return Err(LoginRefusal::InvalidCredentials);
    }
    let expires = match token_expiry(now) {
        Some(expires) => expires,
        None => {
            return Err(LoginRefusal::Internal);
        },
    };
    let claims = Claims { sub: user.id.to_text(), exp: expires };
    session_for(user.id, jwt_encode(config.jwt_secret.as_str(), &claims))
}

/// The user that a registration creates: the identifier and the instant are
/// the given ones, name and address are the request's, and the stored hash is
/// one that the request's password is accepted for.
pub open spec fn is_registered(user: User, request: RegisterRequest, id: Id, now: i64) -> bool {
    &&& user.id == id
    &&& user.username@ == request.username@
    &&& user.email@ == request.email@
    &&& user.created_at == now
    &&& password_check(request.password@, user.password_hash@) == Some(true)
}

/// Makes the new user out of a hashed password, or an internal fault where
/// the password could not be hashed.
pub fn new_user(
    request: &RegisterRequest,
    id: Id,
    now: i64,
    hashed: Result<String, bcrypt::BcryptError>,
) -> (user: Result<User, RegisterRefusal>)
    ensures
        match hashed {
            Ok(hash) => user matches Ok(made) && made.id == id && made.username@
                == request.username@ && made.email@ == request.email@ && made.password_hash
                == hash && made.created_at == now,
            Err(_) => user == Err::<User, RegisterRefusal>(RegisterRefusal::Internal),
        },
{
    match hashed {
        Ok(hash) => Ok(
            User {
                id,
                username: request.username.clone(),
                email: request.email.clone(),
                password_hash: hash,
                created_at: now,
            },
        ),
        Err(_) => Err(RegisterRefusal::Internal),
    }
}

/// Prepares a registration. `existing` is what the user store answered for
/// the user name of the request, `id` a fresh identifier, `now` the instant of
/// the request. A taken name is a conflict and a fault of the store is
/// internal, and the password is hashed in neither case. For a free name the
/// password is hashed and the user to store is returned; where hashing fails
/// the fault is internal.
pub fn register(
    existing: Result<Option<User>, StoreFault>,
    request: &RegisterRequest,
    id: Id,
    now: i64,
) -> (prepared: Result<User, RegisterRefusal>)
    ensures
        match existing {
            Ok(Some(_)) => prepared == Err::<User, RegisterRefusal>(RegisterRefusal::Conflict),
            Err(_) => prepared == Err::<User, RegisterRefusal>(RegisterRefusal::Internal),
            Ok(None) => match prepared {
                Ok(user) => is_registered(user, *request, id, now),
                Err(refusal) => refusal == RegisterRefusal::Internal,
            },
        },
{
    match existing {
        Ok(Some(_)) => Err(RegisterRefusal::Conflict),
        Err(_) => Err(RegisterRefusal::Internal),
        Ok(None) => new_user(request, id, now, bcrypt_hash(request.password.as_str())),
    }
}

/// What a registration ends with once the store has answered.
pub open spec fn registration_ends(user_id: Id, stored: Result<(), StoreFault>) -> Result<
    Id,
    RegisterRefusal,
> {
    match stored {
        Ok(_) => Ok(user_id),
        Err(_) => Err(RegisterRefusal::Internal),
    }
}

/// Ends a registration once the store has answered: the new user's identifier
/// where the user was stored, an internal fault where not.
pub fn confirm_registration(user_id: Id, stored: Result<(), StoreFault>) -> (reply: Result<
    Id,
    RegisterRefusal,
>)
    ensures
        reply == registration_ends(user_id, stored),
{
    match stored {
        Ok(_) => Ok(user_id),
        Err(_) => Err(RegisterRefusal::Internal),
    }
}

/// Whoever registered can sign in: with the user that a registration made and
/// the password it was made with, a sign-in is never turned down for its
/// credentials.
pub proof fn lemma_registered_user_signs_in(
    user: User,
    request: RegisterRequest,
    id: Id,
    created: i64,
    secret: Seq<char>,
    now: i64,
)
    requires
        is_registered(user, request, id, created),
    ensures
        login_outcome(Ok(Some(user)), request.password@, secret, now) != Err::<
            (Seq<char>, Id),
            LoginRefusal,
        >(LoginRefusal::InvalidCredentials),
        login_outcome(Ok(Some(user)), request.password@, secret, now) matches Ok(session)
            ==> session.1 == id,
{
}

/// A token is valid for exactly 24 hours from the second it was issued in.
pub proof fn lemma_token_lifetime(now: i64)
    ensures
        expiry(now) matches Some(expires) ==> expires - now / 1_000_000 == 86_400,
{
}

} // verus!
