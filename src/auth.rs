//! The credential model: signed tokens carrying claims, password hashes,
//! and the bearer-token check that guards protected routes.
use vstd::prelude::*;
use crate::error::AppError;

verus! {

/// The token text that HS256 signing of the claims object
/// `{sub, role, iat, exp}` under the given secret produces.
pub uninterp spec fn signed_token(sub: Seq<char>, role: Seq<char>, iat: int, exp: int, secret: Seq<u8>) -> Seq<char>;

/// The claims `(sub, role, iat, exp)` that a token carries when its HS256
/// signature verifies under the secret and its payload holds those four
/// claims; `None` otherwise. Expiry is not consulted.
pub uninterp spec fn token_payload(token: Seq<char>, secret: Seq<u8>) -> Option<(Seq<char>, Seq<char>, int, int)>;

/// Whether a password matches a stored bcrypt hash; `None` when the hash
/// cannot be read as a bcrypt hash.
pub uninterp spec fn password_check(password: Seq<char>, hash: Seq<char>) -> Option<bool>;

/// The lifetime of a token when none is configured, in seconds.
pub const DEFAULT_TOKEN_LIFETIME: i64 = 3600;

/// Relies on chrono::Utc::now and DateTime::timestamp: the current time in
/// whole seconds since the Unix epoch. It reads the system clock and panics
/// on a clock set before the epoch, so what it returns is not negative.
#[verifier::external_body]
pub(crate) fn now_timestamp() -> (r: i64)
    ensures
        r >= 0,
{
    chrono::Utc::now().timestamp()
}

/// Relies on jsonwebtoken::encode with the default header (HS256) and an
/// HMAC key made from the secret: the claims are serialized as a JSON object
/// and signed. With an HMAC key and the HS256 header the algorithm families
/// agree, serializing a map of strings and integers cannot fail and HMAC
/// signing always succeeds, so a token is always returned. Decoding that token under the same secret gives the same
/// claims back, as long as `exp` is not negative (the decoder requires it to
/// read as an unsigned number).
#[verifier::external_body]
fn sign_claims(sub: &str, role: &str, iat: i64, exp: i64, secret: &[u8]) -> (r: Option<String>)
    ensures
        r is Some,
        r is Some ==> r->0@ == signed_token(sub@, role@, iat as int, exp as int, secret@),
        r is Some && exp >= 0 ==> token_payload(r->0@, secret@) == Some(
            (sub@, role@, iat as int, exp as int),
        ),
{
    let mut m = serde_json::Map::new();
    m.insert("sub".to_string(), serde_json::Value::from(sub));
    m.insert("role".to_string(), serde_json::Value::from(role));
    m.insert("iat".to_string(), serde_json::Value::from(iat));
    m.insert("exp".to_string(), serde_json::Value::from(exp));
    let key = jsonwebtoken::EncodingKey::from_secret(secret);
    jsonwebtoken::encode(&jsonwebtoken::Header::default(), &m, &key).ok()
}

/// Relies on jsonwebtoken::decode with an HS256 validation whose expiry
/// check is switched off: the signature is verified under the secret and the
/// four claims are read from the payload. Expiry is decided by the caller.
#[verifier::external_body]
fn read_signed(token: &str, secret: &[u8]) -> (r: Option<(String, String, i64, i64)>)
    ensures
        match r {
            Some(c) => token_payload(token@, secret@) == Some(
                (c.0@, c.1@, c.2 as int, c.3 as int),
            ),
            None => token_payload(token@, secret@) is None,
        },
{
    let mut v = jsonwebtoken::Validation::new(jsonwebtoken::Algorithm::HS256);
    v.validate_exp = false;
    let key = jsonwebtoken::DecodingKey::from_secret(secret);
    let c = jsonwebtoken::decode::<serde_json::Value>(token, &key, &v).ok()?.claims;
    let sub = c.get("sub")?.as_str()?.to_string();
    let role = c.get("role")?.as_str()?.to_string();
    Some((sub, role, c.get("iat")?.as_i64()?, c.get("exp")?.as_i64()?))
}

/// Relies on bcrypt::hash with bcrypt::DEFAULT_COST: the salt is random, so
/// the hash itself is not determined, but bcrypt::verify accepts the password
/// against it.
#[verifier::external_body]
fn bcrypt_hash(password: &str) -> (r: Option<String>)
    ensures
        r is Some ==> password_check(password@, r->0@) == Some(true),
{
    bcrypt::hash(password, bcrypt::DEFAULT_COST).ok()
}

/// Relies on bcrypt::verify: recomputes the hash of the password with the
/// cost and salt read from the stored hash and compares.
#[verifier::external_body]
fn bcrypt_verify(password: &str, hash: &str) -> (r: Option<bool>)
    ensures
        r == password_check(password@, hash@),
{
    bcrypt::verify(password, hash).ok()
}

/// `iat + lifetime`, held within the range of `i64`.
pub open spec fn expiry_after(iat: int, lifetime: int) -> int {
    if iat + lifetime > i64::MAX {
        i64::MAX as int
    } else if iat + lifetime < i64::MIN {
        i64::MIN as int
    } else {
        iat + lifetime
    }
}

/// Claims issued with a positive lifetime expire after their issue time, so
/// the token that carries them is accepted at the moment it is issued.
pub proof fn lemma_fresh_claims_unexpired(iat: i64, lifetime: i64)
    requires
        lifetime > 0,
        iat < i64::MAX,
    ensures
        iat < expiry_after(iat as int, lifetime as int),
{
}

/// The claims that a token carries and that are accepted at time `now`:
/// the signature verifies and `now` is before the expiry.
pub open spec fn accepted_claims(token: Seq<char>, secret: Seq<u8>, now: int) -> Option<
    (Seq<char>, Seq<char>, int, int),
> {
    match token_payload(token, secret) {
        Some(c) => if now < c.3 {
            Some(c)
        } else {
            None
        },
        None => None,
    }
}

/// The decoded payload of a signed token.
#[derive(Debug, Clone, PartialEq, Eq)]
pub struct Claims {
    pub sub: String,
    pub role: String,
    pub iat: i64,
    pub exp: i64,
}

impl Claims {
    pub open spec fn view_tuple(&self) -> (Seq<char>, Seq<char>, int, int) {
        (self.sub@, self.role@, self.iat as int, self.exp as int)
    }

    /// Claims issued at `iat` that expire `lifetime` seconds later.
    pub fn issued_at(sub: String, role: String, iat: i64, lifetime: i64) -> (r: Claims)
        ensures
            r.sub == sub,
            r.role == role,
            r.iat == iat,
            r.exp == expiry_after(iat as int, lifetime as int),
    {
        let exp: i64 = if lifetime > 0 && iat > i64::MAX - lifetime {
            i64::MAX
        } else if lifetime < 0 && iat < i64::MIN - lifetime {
            i64::MIN
        } else {
            iat + lifetime
        };
        Claims { sub, role, iat, exp }
    }

    /// Claims issued now that expire `lifetime` seconds later.
    pub fn new(sub: String, role: String, lifetime: i64) -> (r: Claims)
        ensures
            r.sub == sub,
            r.role == role,
            r.exp == expiry_after(r.iat as int, lifetime as int),
    {
        let now = now_timestamp();
        Claims::issued_at(sub, role, now, lifetime)
    }

    /// Signs the claims with the secret. The token carries exactly these
    /// claims; when the expiry is not negative, it is accepted at every time
    /// before the expiry and at no time after it.
    pub fn encode(&self, secret: &[u8]) -> (r: Result<String, AppError>)
        ensures
            r is Ok,
            match r {
                Ok(t) => {
                    &&& t@ == signed_token(self.sub@, self.role@, self.iat as int, self.exp as int, secret@)
                    &&& self.exp >= 0 ==> token_payload(t@, secret@) == Some(self.view_tuple())
                    &&& self.exp >= 0 ==> forall|now: int| #[trigger]
                        accepted_claims(t@, secret@, now) == if now < self.exp {
                            Some(self.view_tuple())
                        } else {
                            None
                        }
                },
                Err(e) => e is InternalServerError,
            },
    {
        match sign_claims(self.sub.as_str(), self.role.as_str(), self.iat, self.exp, secret) {
            Some(t) => Ok(t),
            None => Err(AppError::InternalServerError(String::from_str("Gagal membuat token"))),
        }
    }
}

/// Checks a token at time `now`: it must carry a verified signature under
/// the secret and expire after `now`. Every failure is `InvalidToken`.
pub fn decode_token_at(token: &str, secret: &[u8], now: i64) -> (r: Result<Claims, AppError>)
    ensures
        match r {
            Ok(c) => accepted_claims(token@, secret@, now as int) == Some(c.view_tuple()),
            Err(e) => accepted_claims(token@, secret@, now as int) is None && e == AppError::InvalidToken,
        },
{
    match read_signed(token, secret) {
        Some((sub, role, iat, exp)) => {
            if now < exp {
                Ok(Claims { sub, role, iat, exp })
            } else {
                Err(AppError::InvalidToken)
            }
        },
        None => Err(AppError::InvalidToken),
    }
}

/// Checks a token against the current time.
pub fn decode_token(token: &str, secret: &[u8]) -> (r: Result<Claims, AppError>)
    ensures
        match r {
            Ok(c) => exists|now: int|
                now >= 0 && #[trigger] accepted_claims(token@, secret@, now) == Some(c.view_tuple()),
            Err(e) => e == AppError::InvalidToken,
        },
{
    let now = now_timestamp();
    decode_token_at(token, secret, now)
}

/// Hashes a password with a fresh random salt; the result verifies against
/// the password.
pub fn hash_password(password: &str) -> (r: Result<String, AppError>)
    ensures
        match r {
            Ok(h) => password_check(password@, h@) == Some(true),
            Err(e) => e is InternalServerError,
        },
{
    match bcrypt_hash(password) {
        Some(h) => Ok(h),
        None => Err(AppError::InternalServerError(String::from_str("Gagal hash password"))),
    }
}

/// Whether the password matches the stored hash. A mismatch is `Ok(false)`;
/// only an unreadable hash is an error.
pub fn verify_password(password: &str, hash: &str) -> (r: Result<bool, AppError>)
    ensures
        match password_check(password@, hash@) {
            Some(b) => r == Ok::<bool, AppError>(b),
            None => r is Err && r->Err_0 is InternalServerError,
        },
{
    match bcrypt_verify(password, hash) {
        Some(b) => Ok(b),
        None => Err(AppError::InternalServerError(String::from_str("Gagal verifikasi password"))),
    }
}

/// The scheme word, with its separating space, that opens a bearer header.
pub open spec fn bearer_prefix() -> Seq<char> {
    seq!['B', 'e', 'a', 'r', 'e', 'r', ' ']
}

/// The token of an `Authorization` header value of the form `Bearer <token>`.
pub open spec fn bearer_token(h: Seq<char>) -> Option<Seq<char>> {
    if h.len() >= 7 && h.subrange(0, 7) == bearer_prefix() {
        Some(h.subrange(7, h.len() as int))
    } else {
        None
    }
}

/// Extracts the token from the value of the `Authorization` header, if the
/// request has one that can be read as text. A missing header or another
/// scheme is `Unauthorized`.
pub fn get_token_from_headers(header: Option<&str>) -> (r: Result<String, AppError>)
    ensures
        match header {
            Some(h) => match bearer_token(h@) {
                Some(t) => r is Ok && r->Ok_0@ == t,
                None => r == Err::<String, AppError>(AppError::Unauthorized),
            },
            None => r == Err::<String, AppError>(AppError::Unauthorized),
        },
{
    let h = match header {
        Some(h) => h,
        None => return Err(AppError::Unauthorized),
    };
    let n = h.unicode_len();
    if n < 7 {
        return Err(AppError::Unauthorized);
    }
    let prefix: [char; 7] = ['B', 'e', 'a', 'r', 'e', 'r', ' '];
    let mut i: usize = 0;
    while i < 7
        invariant
            header == Some(h),
            n == h@.len(),
            n >= 7,
            i <= 7,
            prefix@ == bearer_prefix(),
            forall|j: int| 0 <= j < i ==> h@[j] == bearer_prefix()[j],
        decreases 7 - i,
    {
        if h.get_char(i) != prefix[i] {
            assert(h@.subrange(0, 7)[i as int] != bearer_prefix()[i as int]);
            assert(h@.subrange(0, 7) != bearer_prefix());
            return Err(AppError::Unauthorized);
        }
        i = i + 1;
    }
    assert(h@.subrange(0, 7) =~= bearer_prefix());
    let t = h.substring_char(7, n);
    Ok(t.to_string())
}

/// The identity of the caller of a protected route at time `now`: the
/// header must hold a bearer token (else `Unauthorized`) that is accepted
/// at `now` (else `InvalidToken`). Nothing else is consulted, so the check
/// comes before any store access.
pub fn authenticate_at(header: Option<&str>, secret: &[u8], now: i64) -> (r: Result<Claims, AppError>)
    ensures
        match header {
            Some(h) => match bearer_token(h@) {
                Some(t) => match accepted_claims(t, secret@, now as int) {
                    Some(c) => r is Ok && r->Ok_0.view_tuple() == c,
                    None => r == Err::<Claims, AppError>(AppError::InvalidToken),
                },
                None => r == Err::<Claims, AppError>(AppError::Unauthorized),
            },
            None => r == Err::<Claims, AppError>(AppError::Unauthorized),
        },
        r is Err ==> crate::error::is_auth_failure(r->Err_0),
{
    let token = get_token_from_headers(header)?;
    decode_token_at(token.as_str(), secret, now)
}

/// The identity of the caller of a protected route, checked against the
/// current time.
pub fn authenticate(header: Option<&str>, secret: &[u8]) -> (r: Result<Claims, AppError>)
    ensures
        match header {
            Some(h) => match bearer_token(h@) {
                Some(t) => match r {
                    Ok(c) => exists|now: int|
                        now >= 0 && #[trigger] accepted_claims(t, secret@, now) == Some(c.view_tuple()),
                    Err(e) => e == AppError::InvalidToken,
                },
                None => r == Err::<Claims, AppError>(AppError::Unauthorized),
            },
            None => r == Err::<Claims, AppError>(AppError::Unauthorized),
        },
{
    let now = now_timestamp();
    authenticate_at(header, secret, now)
}

} // verus!
