//! The error taxonomy of the service and its mapping to HTTP statuses and
//! client-visible messages.
use vstd::prelude::*;

verus! {

/// A failure of a request, as reported to the client.
#[derive(Debug, Clone, PartialEq, Eq)]
pub enum AppError {
    /// Unexpected failure; the detail is for the server log only.
    InternalServerError(String),
    /// Failure of the relational store; the detail is for the server log only.
    DatabaseError(String),
    /// Payload validation failed; holds one entry per offending field.
    ValidationError(Vec<FieldError>),
    InvalidCredentials,
    InvalidToken,
    Unauthorized,
    /// The named entity does not exist.
    NotFound(String),
    /// A uniqueness rule of the store was violated.
    Conflict(String),
}

/// The failure of one field of a payload.
#[derive(Debug, Clone, PartialEq, Eq)]
pub struct FieldError {
    pub field: String,
    pub message: String,
}

/// A failed write or read of the relational store, as the store layer
/// reports it.
#[derive(Debug, Clone, PartialEq, Eq)]
pub struct StoreError {
    /// The write broke a uniqueness constraint.
    pub unique_violation: bool,
    /// The store's description, for the server log.
    pub detail: String,
}

impl StoreError {
    /// The failure as the client sees it: a uniqueness violation is a
    /// conflict with the given message, anything else a store failure.
    pub fn into_app_error(self, conflict_message: &str) -> (r: AppError)
        ensures
            self.unique_violation ==> r is Conflict && r->Conflict_0@ == conflict_message@,
            !self.unique_violation ==> r == AppError::DatabaseError(self.detail),
    {
        if self.unique_violation {
            AppError::Conflict(String::from_str(conflict_message))
        } else {
            AppError::DatabaseError(self.detail)
        }
    }
}

pub const STATUS_BAD_REQUEST: u16 = 400;
pub const STATUS_UNAUTHORIZED: u16 = 401;
pub const STATUS_NOT_FOUND: u16 = 404;
pub const STATUS_CONFLICT: u16 = 409;
pub const STATUS_INTERNAL: u16 = 500;

/// The HTTP status of each kind of failure.
pub open spec fn status_of(e: AppError) -> u16 {
    match e {
        AppError::InternalServerError(_) => STATUS_INTERNAL,
        AppError::DatabaseError(_) => STATUS_INTERNAL,
        AppError::ValidationError(_) => STATUS_BAD_REQUEST,
        AppError::InvalidCredentials => STATUS_UNAUTHORIZED,
        AppError::InvalidToken => STATUS_UNAUTHORIZED,
        AppError::Unauthorized => STATUS_UNAUTHORIZED,
        AppError::NotFound(_) => STATUS_NOT_FOUND,
        AppError::Conflict(_) => STATUS_CONFLICT,
    }
}

/// An authentication-class failure: one that is answered with 401.
pub open spec fn is_auth_failure(e: AppError) -> bool {
    status_of(e) == STATUS_UNAUTHORIZED
}

/// The texts, one after the other, separated by ", ".
pub open spec fn joined(names: Seq<Seq<char>>) -> Seq<char>
    decreases names.len(),
{
    if names.len() == 0 {
        Seq::empty()
    } else if names.len() == 1 {
        names[0]
    } else {
        joined(names.drop_last()) + ", "@ + names.last()
    }
}

/// Each field failure as a pair of field name and message.
pub open spec fn views_of(v: Seq<FieldError>) -> Seq<(Seq<char>, Seq<char>)> {
    v.map_values(|f: FieldError| (f.field@, f.message@))
}

/// Each field failure as the text `field: message`.
pub open spec fn entry_texts(v: Seq<FieldError>) -> Seq<Seq<char>> {
    v.map_values(|f: FieldError| f.field@ + ": "@ + f.message@)
}

/// The message that the client sees for each failure. Internal and store
/// failures get a generic text, so that no detail leaks.
pub open spec fn message_of(e: AppError) -> Seq<char> {
    match e {
        AppError::InternalServerError(_) => "Kesalahan Internal Server"@,
        AppError::DatabaseError(_) => "Kesalahan Database"@,
        AppError::ValidationError(f) => "Input tidak valid: "@ + joined(entry_texts(f@)),
        AppError::InvalidCredentials => "Kredensial salah"@,
        AppError::InvalidToken => "Token tidak valid"@,
        AppError::Unauthorized => "Diperlukan otentikasi"@,
        AppError::NotFound(entity) => entity@ + " tidak ditemukan"@,
        AppError::Conflict(m) => m@,
    }
}

fn join_names(names: &Vec<FieldError>) -> (r: String)
    ensures
        r@ == joined(entry_texts(names@)),
{
    let mut r = String::new();
    let mut i: usize = 0;
    while i < names.len()
        invariant
            0 <= i <= names.len(),
            r@ == joined(entry_texts(names@.subrange(0, i as int))),
        decreases names.len() - i,
    {
        let ghost prev = entry_texts(names@.subrange(0, i as int));
        let ghost next = entry_texts(names@.subrange(0, i as int + 1));
        let ghost before = r@;
        assert(next.drop_last() =~= prev);
        assert(next.last() == names@[i as int].field@ + ": "@ + names@[i as int].message@);
        if i > 0 {
            r.append(", ");
        }
        r.append(names[i].field.as_str());
        r.append(": ");
        r.append(names[i].message.as_str());
        assert(i > 0 ==> r@ =~= before + ", "@ + (names@[i as int].field@ + ": "@ + names@[i as int].message@));
        assert(i == 0 ==> r@ =~= names@[i as int].field@ + ": "@ + names@[i as int].message@);
        i = i + 1;
    }
    assert(names@.subrange(0, names@.len() as int) =~= names@);
    r
}

impl AppError {
    /// The HTTP status code that answers this failure.
    pub fn status_code(&self) -> (r: u16)
        ensures
            r == status_of(*self),
    {
        match self {
            AppError::InternalServerError(_) => STATUS_INTERNAL,
            AppError::DatabaseError(_) => STATUS_INTERNAL,
            AppError::ValidationError(_) => STATUS_BAD_REQUEST,
            AppError::InvalidCredentials => STATUS_UNAUTHORIZED,
            AppError::InvalidToken => STATUS_UNAUTHORIZED,
            AppError::Unauthorized => STATUS_UNAUTHORIZED,
            AppError::NotFound(_) => STATUS_NOT_FOUND,
            AppError::Conflict(_) => STATUS_CONFLICT,
        }
    }

    /// The text of the `error` field of the JSON body sent to the client.
    pub fn error_message(&self) -> (r: String)
        ensures
            r@ == message_of(*self),
    {
        match self {
            AppError::InternalServerError(_) => String::from_str("Kesalahan Internal Server"),
            AppError::DatabaseError(_) => String::from_str("Kesalahan Database"),
            AppError::ValidationError(f) => {
                let names = join_names(f);
                String::from_str("Input tidak valid: ").concat(names.as_str())
            },
            AppError::InvalidCredentials => String::from_str("Kredensial salah"),
            AppError::InvalidToken => String::from_str("Token tidak valid"),
            AppError::Unauthorized => String::from_str("Diperlukan otentikasi"),
            AppError::NotFound(entity) => entity.clone().concat(" tidak ditemukan"),
            AppError::Conflict(m) => m.clone(),
        }
    }
}

} // verus!
