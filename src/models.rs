//! The records of the store and the payloads that create or change them,
//! with their validation rules.
use vstd::prelude::*;
use crate::error::{AppError, FieldError, views_of};

verus! {

/// Whether a text is a well-formed email address, as the validator crate
/// judges it.
pub uninterp spec fn email_valid(s: Seq<char>) -> bool;

/// Relies on validator::ValidateEmail::validate_email on `&str`: the
/// address checks of RFC 5321 and of the HTML living standard. A text that
/// is empty or holds no `@` is refused.
#[verifier::external_body]
fn is_valid_email(s: &str) -> (r: bool)
    ensures
        r == email_valid(s@),
        s@.len() == 0 || !s@.contains('@') ==> !r,
{
    validator::ValidateEmail::validate_email(&s)
}

/// Whether a text holds at least `min` characters.
pub open spec fn long_enough(s: Seq<char>, min: nat) -> bool {
    s.len() >= min
}

/// An optional text is acceptable when absent, else when long enough.
pub open spec fn opt_long_enough(s: Option<String>, min: nat) -> bool {
    match s {
        Some(t) => long_enough(t@, min),
        None => true,
    }
}

/// The field's name and message when its check failed, else nothing.
pub open spec fn flagged(ok: bool, field: Seq<char>, message: Seq<char>) -> Seq<(Seq<char>, Seq<char>)> {
    if ok {
        Seq::empty()
    } else {
        seq![(field, message)]
    }
}

/// A validation error that lists exactly `problems`.
pub open spec fn rejected(e: AppError, problems: Seq<(Seq<char>, Seq<char>)>) -> bool {
    e is ValidationError && views_of(e->ValidationError_0@) == problems
}

/// The outcome of a validation whose failing fields are `problems`, in
/// order: success when there are none, else a validation error that lists
/// them.
pub open spec fn validated(r: Result<(), AppError>, problems: Seq<(Seq<char>, Seq<char>)>) -> bool {
    match r {
        Ok(_) => problems.len() == 0,
        Err(e) => problems.len() > 0 && rejected(e, problems),
    }
}

fn flag(problems: &mut Vec<FieldError>, ok: bool, field: &str, message: &str)
    ensures
        views_of(final(problems)@) == views_of(old(problems)@) + flagged(ok, field@, message@),
{
    if !ok {
        problems.push(FieldError { field: String::from_str(field), message: String::from_str(message) });
    }
    assert(views_of(final(problems)@) =~= views_of(old(problems)@) + flagged(ok, field@, message@));
}

fn outcome(problems: Vec<FieldError>) -> (r: Result<(), AppError>)
    ensures
        validated(r, views_of(problems@)),
{
    if problems.len() == 0 {
        Ok(())
    } else {
        Err(AppError::ValidationError(problems))
    }
}

/// A stored book.
#[derive(Debug, Clone, PartialEq, Eq)]
pub struct Book {
    pub id: u128,
    pub title: String,
    pub author: String,
    pub publication_year: Option<i32>,
    /// Microseconds since the Unix epoch.
    pub created_at: i64,
    /// Microseconds since the Unix epoch.
    pub updated_at: i64,
}

/// The payload that creates a book.
#[derive(Debug, Clone, PartialEq, Eq)]
pub struct CreateBook {
    pub title: String,
    pub author: String,
    pub publication_year: Option<i32>,
}

/// The payload that changes a book: only the fields present overwrite.
#[derive(Debug, Clone, PartialEq, Eq)]
pub struct UpdateBook {
    pub title: Option<String>,
    pub author: Option<String>,
    pub publication_year: Option<i32>,
}

/// A stored record of a sent email.
#[derive(Debug, Clone, PartialEq, Eq)]
pub struct Email {
    pub id: u128,
    pub sender: String,
    pub recipient: String,
    pub subject: String,
    pub body: Option<String>,
    /// Microseconds since the Unix epoch.
    pub sent_at: i64,
}

/// The payload that records an email.
#[derive(Debug, Clone, PartialEq, Eq)]
pub struct CreateEmail {
    pub sender: String,
    pub recipient: String,
    pub subject: String,
    pub body: Option<String>,
}

/// The payload that changes an email: only the fields present overwrite.
#[derive(Debug, Clone, PartialEq, Eq)]
pub struct UpdateEmail {
    pub subject: Option<String>,
    pub body: Option<String>,
}

/// A stored user account.
#[derive(Debug, Clone, PartialEq, Eq)]
pub struct User {
    pub id: u128,
    pub username: String,
    pub email: String,
    pub role: String,
    pub password_hash: String,
}

/// The signup payload.
#[derive(Debug, Clone, PartialEq, Eq)]
pub struct CreateUser {
    pub username: String,
    pub email: String,
    pub password: String,
}

/// The signin payload.
#[derive(Debug, Clone, PartialEq, Eq)]
pub struct LoginRequest {
    pub email: String,
    pub password: String,
}

impl CreateBook {
    pub open spec fn problems(&self) -> Seq<(Seq<char>, Seq<char>)> {
        flagged(long_enough(self.title@, 1), "title"@, "Judul tidak boleh kosong"@)
            + flagged(long_enough(self.author@, 1), "author"@, "Penulis tidak boleh kosong"@)
    }

    /// Title and author must not be empty.
    pub fn validate(&self) -> (r: Result<(), AppError>)
        ensures
            validated(r, self.problems()),
    {
        let mut p: Vec<FieldError> = Vec::new();
        flag(&mut p, self.title.unicode_len() >= 1, "title", "Judul tidak boleh kosong");
        flag(&mut p, self.author.unicode_len() >= 1, "author", "Penulis tidak boleh kosong");
        outcome(p)
    }
}

impl UpdateBook {
    pub open spec fn problems(&self) -> Seq<(Seq<char>, Seq<char>)> {
        flagged(opt_long_enough(self.title, 1), "title"@, "Judul tidak boleh kosong"@) + flagged(
            opt_long_enough(self.author, 1),
            "author"@,
            "Penulis tidak boleh kosong"@,
        )
    }

    /// A title or author that is present must not be empty.
    pub fn validate(&self) -> (r: Result<(), AppError>)
        ensures
            validated(r, self.problems()),
    {
        let mut p: Vec<FieldError> = Vec::new();
        let title_ok = match &self.title {
            Some(t) => t.unicode_len() >= 1,
            None => true,
        };
        let author_ok = match &self.author {
            Some(a) => a.unicode_len() >= 1,
            None => true,
        };
        flag(&mut p, title_ok, "title", "Judul tidak boleh kosong");
        flag(&mut p, author_ok, "author", "Penulis tidak boleh kosong");
        outcome(p)
    }
}

impl CreateEmail {
    pub open spec fn problems(&self) -> Seq<(Seq<char>, Seq<char>)> {
        flagged(email_valid(self.sender@), "sender"@, "Alamat email tidak valid"@)
            + flagged(email_valid(self.recipient@), "recipient"@, "Alamat email tidak valid"@)
            + flagged(long_enough(self.subject@, 1), "subject"@, "Subjek tidak boleh kosong"@)
    }

    /// Sender and recipient must be email addresses; the subject must not be
    /// empty.
    pub fn validate(&self) -> (r: Result<(), AppError>)
        ensures
            validated(r, self.problems()),
    {
        let mut p: Vec<FieldError> = Vec::new();
        flag(&mut p, is_valid_email(self.sender.as_str()), "sender", "Alamat email tidak valid");
        flag(&mut p, is_valid_email(self.recipient.as_str()), "recipient", "Alamat email tidak valid");
        flag(&mut p, self.subject.unicode_len() >= 1, "subject", "Subjek tidak boleh kosong");
        outcome(p)
    }
}

impl UpdateEmail {
    pub open spec fn problems(&self) -> Seq<(Seq<char>, Seq<char>)> {
        flagged(opt_long_enough(self.subject, 1), "subject"@, "Subjek tidak boleh kosong"@)
    }

    /// A subject that is present must not be empty.
    pub fn validate(&self) -> (r: Result<(), AppError>)
        ensures
            validated(r, self.problems()),
    {
        let mut p: Vec<FieldError> = Vec::new();
        let subject_ok = match &self.subject {
            Some(s) => s.unicode_len() >= 1,
            None => true,
        };
        flag(&mut p, subject_ok, "subject", "Subjek tidak boleh kosong");
        outcome(p)
    }
}

impl CreateUser {
    pub open spec fn problems(&self) -> Seq<(Seq<char>, Seq<char>)> {
        flagged(long_enough(self.username@, 3), "username"@, "Username minimal 3 karakter"@)
            + flagged(email_valid(self.email@), "email"@, "Alamat email tidak valid"@)
            + flagged(long_enough(self.password@, 8), "password"@, "Password minimal 8 karakter"@)
    }

    /// The username needs three characters, the password eight, and the
    /// email must be an address.
    pub fn validate(&self) -> (r: Result<(), AppError>)
        ensures
            validated(r, self.problems()),
    {
        let mut p: Vec<FieldError> = Vec::new();
        flag(&mut p, self.username.unicode_len() >= 3, "username", "Username minimal 3 karakter");
        flag(&mut p, is_valid_email(self.email.as_str()), "email", "Alamat email tidak valid");
        flag(&mut p, self.password.unicode_len() >= 8, "password", "Password minimal 8 karakter");
        outcome(p)
    }
}

impl LoginRequest {
    pub open spec fn problems(&self) -> Seq<(Seq<char>, Seq<char>)> {
        flagged(email_valid(self.email@), "email"@, "Alamat email tidak valid"@)
            + flagged(long_enough(self.password@, 1), "password"@, "Password tidak boleh kosong"@)
    }

    /// The email must be an address and the password must not be empty.
    pub fn validate(&self) -> (r: Result<(), AppError>)
        ensures
            validated(r, self.problems()),
    {
        let mut p: Vec<FieldError> = Vec::new();
        flag(&mut p, is_valid_email(self.email.as_str()), "email", "Alamat email tidak valid");
        flag(&mut p, self.password.unicode_len() >= 1, "password", "Password tidak boleh kosong");
        outcome(p)
    }
}

} // verus!
