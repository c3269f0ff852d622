//! The decisions of signup and signin around the user table.
use vstd::prelude::*;
use crate::auth::{Claims, now_timestamp, expiry_after, hash_password, password_check, signed_token, token_payload, verify_password};
use crate::error::{AppError, StoreError};
use crate::models::{CreateUser, LoginRequest, User, rejected};

verus! {

/// The lower-case hexadecimal digit of a value below 16.
pub open spec fn hex_digit(n: int) -> char {
    seq!['0', '1', '2', '3', '4', '5', '6', '7', '8', '9', 'a', 'b', 'c', 'd', 'e', 'f'][n]
}

/// The `k`-th of the 32 hexadecimal digits of `id`, most significant first.
pub open spec fn nibble(id: u128, k: int) -> int {
    ((id >> ((124 - 4 * k) as u128)) & 15u128) as int
}

/// Which digit stands at position `i` of the hyphenated text.
pub open spec fn digit_at(i: int) -> int {
    if i < 8 {
        i
    } else if i < 13 {
        i - 1
    } else if i < 18 {
        i - 2
    } else if i < 23 {
        i - 3
    } else {
        i - 4
    }
}

/// The hyphenated lower-case text of a UUID: 32 hexadecimal digits in
/// groups of 8, 4, 4, 4 and 12, joined by hyphens.
pub open spec fn uuid_text(id: u128) -> Seq<char> {
    Seq::new(
        36,
        |i: int|
            if i == 8 || i == 13 || i == 18 || i == 23 {
                '-'
            } else {
                hex_digit(nibble(id, digit_at(i)))
            },
    )
}

/// Relies on uuid::Uuid::from_u128 (the id's bytes, most significant first)
/// and the `Display` of `Uuid`: the hyphenated lower-case form.
#[verifier::external_body]
fn uuid_string(id: u128) -> (r: String)
    ensures
        r@ == uuid_text(id),
{
    uuid::Uuid::from_u128(id).to_string()
}

/// The role given to every account created by signup.
pub open spec fn default_role() -> Seq<char> {
    "user"@
}

/// The message of a signup that breaks the uniqueness of username or email.
pub open spec fn taken_message() -> Seq<char> {
    "Username atau email sudah digunakan"@
}

/// The row that signup asks the store to insert.
#[derive(Debug, Clone, PartialEq, Eq)]
pub struct NewUser {
    pub username: String,
    pub email: String,
    pub password_hash: String,
    pub role: String,
}

/// A user as shown to clients: it has no password hash.
#[derive(Debug, Clone, PartialEq, Eq)]
pub struct PublicUser {
    pub id: u128,
    pub username: String,
    pub email: String,
    pub role: String,
}

/// The first half of signup: validate the payload and hash the password.
/// The result is what the store is asked to insert.
pub fn signup(payload: &CreateUser) -> (r: Result<NewUser, AppError>)
    ensures
        payload.problems().len() > 0 ==> r is Err && rejected(r->Err_0, payload.problems()),
        payload.problems().len() == 0 ==> match r {
            Ok(n) => {
                &&& n.username@ == payload.username@
                &&& n.email@ == payload.email@
                &&& n.role@ == default_role()
                &&& password_check(payload.password@, n.password_hash@) == Some(true)
            },
            Err(e) => e is InternalServerError,
        },
{
    payload.validate()?;
    let password_hash = hash_password(payload.password.as_str())?;
    Ok(NewUser {
        username: payload.username.clone(),
        email: payload.email.clone(),
        password_hash,
        role: String::from_str("user"),
    })
}

/// The second half of signup: the answer to the store's insert. A
/// uniqueness violation is a conflict; the created user is returned
/// without its password hash.
pub fn finish_signup(inserted: Result<User, StoreError>) -> (r: Result<PublicUser, AppError>)
    ensures
        match inserted {
            Ok(u) => r == Ok::<PublicUser, AppError>(
                PublicUser { id: u.id, username: u.username, email: u.email, role: u.role },
            ),
            Err(se) => if se.unique_violation {
                r is Err && r->Err_0 is Conflict && r->Err_0->Conflict_0@ == taken_message()
            } else {
                r == Err::<PublicUser, AppError>(AppError::DatabaseError(se.detail))
            },
        },
{
    match inserted {
        Ok(u) => Ok(PublicUser { id: u.id, username: u.username, email: u.email, role: u.role }),
        Err(se) => Err(se.into_app_error("Username atau email sudah digunakan")),
    }
}

/// Whether signin with this password succeeds for the looked-up user: the
/// lookup found one and the password verifies against its hash.
pub open spec fn credentials_match(found: Result<Option<User>, StoreError>, password: Seq<char>) -> bool {
    match found {
        Ok(Some(u)) => password_check(password, u.password_hash@) == Some(true),
        _ => false,
    }
}

/// The password that an account was created with signs it in: the hash that
/// signup stores verifies against that password.
pub proof fn lemma_signup_password_signs_in(payload: CreateUser, created: NewUser, stored: User)
    requires
        password_check(payload.password@, created.password_hash@) == Some(true),
        stored.password_hash == created.password_hash,
    ensures
        credentials_match(Ok(Some(stored)), payload.password@),
{
}

/// The token names the user's id and role, was issued at `now` and expires
/// `lifetime` seconds later; when that expiry is not negative, it decodes to
/// exactly these claims.
pub open spec fn token_issued_to(t: Seq<char>, u: User, now: int, lifetime: int, secret: Seq<u8>) -> bool {
    let exp = expiry_after(now, lifetime);
    &&& t == signed_token(uuid_text(u.id), u.role@, now, exp, secret)
    &&& exp >= 0 ==> token_payload(t, secret) == Some((uuid_text(u.id), u.role@, now, exp))
}

/// Signin at time `now`, given the store's lookup of the user by the
/// payload's email. After validation, success comes exactly when a user was
/// found and the password verifies; every other case, a failed lookup
/// included, is the same `InvalidCredentials`. The token names the user's
/// id and role and expires `lifetime` seconds after `now`.
pub fn signin_at(
    payload: &LoginRequest,
    found: Result<Option<User>, StoreError>,
    secret: &[u8],
    lifetime: i64,
    now: i64,
) -> (r: Result<String, AppError>)
    ensures
        payload.problems().len() > 0 ==> r is Err && rejected(r->Err_0, payload.problems()),
        payload.problems().len() == 0 && !credentials_match(found, payload.password@) ==> r
            == Err::<String, AppError>(AppError::InvalidCredentials),
        payload.problems().len() == 0 && credentials_match(found, payload.password@) ==> r is Ok
            && token_issued_to(r->Ok_0@, found->Ok_0->Some_0, now as int, lifetime as int, secret@),
{
    payload.validate()?;
    let u = match found {
        Ok(Some(u)) => u,
        _ => return Err(AppError::InvalidCredentials),
    };
    match verify_password(payload.password.as_str(), u.password_hash.as_str()) {
        Ok(true) => {},
        _ => return Err(AppError::InvalidCredentials),
    }
    let claims = Claims::issued_at(uuid_string(u.id), u.role, now, lifetime);
    claims.encode(secret)
}

/// Signin at the current time; see `signin_at`.
pub fn signin(
    payload: &LoginRequest,
    found: Result<Option<User>, StoreError>,
    secret: &[u8],
    lifetime: i64,
) -> (r: Result<String, AppError>)
    ensures
        payload.problems().len() > 0 ==> r is Err && rejected(r->Err_0, payload.problems()),
        payload.problems().len() == 0 && !credentials_match(found, payload.password@) ==> r
            == Err::<String, AppError>(AppError::InvalidCredentials),
        payload.problems().len() == 0 && credentials_match(found, payload.password@) ==> r is Ok
            && exists|now: int|
            now >= 0 && #[trigger] token_issued_to(
                r->Ok_0@,
                found->Ok_0->Some_0,
                now,
                lifetime as int,
                secret@,
            ),
{
    let now = now_timestamp();
    signin_at(payload, found, secret, lifetime, now)
}

} // verus!
