//! The decisions of the email endpoints: lookup, merge-on-provided-fields
//! update and deletion, each around one store round trip.
use vstd::prelude::*;
use crate::error::AppError;
use crate::models::{Email, UpdateEmail, rejected};
use crate::ws::WsEvent;

verus! {

/// The entity name in an email's not-found message.
pub open spec fn email_entity() -> Seq<char> {
    "Email"@
}

fn email_not_found() -> (r: AppError)
    ensures
        r is NotFound && r->NotFound_0@ == email_entity(),
{
    AppError::NotFound(String::from_str("Email"))
}

/// The values an update writes back: the field of the payload where it is
/// present, else the stored one.
#[derive(Debug, Clone, PartialEq, Eq)]
pub struct EmailChanges {
    pub subject: String,
    pub body: Option<String>,
}

impl EmailChanges {
    pub open spec fn fields(&self) -> (Seq<char>, Option<Seq<char>>) {
        (self.subject@, opt_view(self.body))
    }
}

pub open spec fn opt_view(s: Option<String>) -> Option<Seq<char>> {
    match s {
        Some(t) => Some(t@),
        None => None,
    }
}

/// The fields of an email that an update can change.
pub open spec fn email_fields(e: Email) -> (Seq<char>, Option<Seq<char>>) {
    (e.subject@, opt_view(e.body))
}

/// The fields after merging the payload into the stored email.
pub open spec fn merged_email(e: Email, p: UpdateEmail) -> (Seq<char>, Option<Seq<char>>) {
    (
        match p.subject {
            Some(s) => s@,
            None => e.subject@,
        },
        match p.body {
            Some(b) => Some(b@),
            None => opt_view(e.body),
        },
    )
}

/// The answer to a lookup by id: the row, or not-found.
pub fn get_email_by_id(row: Option<Email>) -> (r: Result<Email, AppError>)
    ensures
        match row {
            Some(e) => r == Ok::<Email, AppError>(e),
            None => r is Err && r->Err_0 is NotFound && r->Err_0->NotFound_0@ == email_entity(),
        },
{
    match row {
        Some(e) => Ok(e),
        None => Err(email_not_found()),
    }
}

/// The values to write for an update of the stored row `row` by `payload`.
/// The payload is validated first, before the row is consulted.
pub fn update_email(row: Option<Email>, payload: &UpdateEmail) -> (r: Result<EmailChanges, AppError>)
    ensures
        payload.problems().len() > 0 ==> r is Err && rejected(r->Err_0, payload.problems()),
        payload.problems().len() == 0 ==> match row {
            Some(e) => r is Ok && r->Ok_0.fields() == merged_email(e, *payload),
            None => r is Err && r->Err_0 is NotFound && r->Err_0->NotFound_0@ == email_entity(),
        },
{
    match payload.validate() {
        Err(e) => return Err(e),
        Ok(()) => {},
    }
    let e = match row {
        Some(e) => e,
        None => return Err(email_not_found()),
    };
    let subject = match &payload.subject {
        Some(s) => s.clone(),
        None => e.subject,
    };
    let body = match &payload.body {
        Some(b) => Some(b.clone()),
        None => e.body,
    };
    Ok(EmailChanges { subject, body })
}

/// The event announcing a newly recorded email.
pub fn create_email_event(created: Email) -> (r: WsEvent)
    ensures
        r == WsEvent::EmailCreated(created),
{
    WsEvent::EmailCreated(created)
}

/// The event announcing an email after its update.
pub fn update_email_event(updated: Email) -> (r: WsEvent)
    ensures
        r == WsEvent::EmailUpdated(updated),
{
    WsEvent::EmailUpdated(updated)
}

/// The answer to deleting the email `id`, given how many rows the store
/// removed: not-found and no event when none was, else exactly one
/// deletion event carrying the id.
pub fn delete_email(id: u128, rows_affected: u64) -> (r: Result<WsEvent, AppError>)
    ensures
        rows_affected == 0 ==> r is Err && r->Err_0 is NotFound && r->Err_0->NotFound_0@
            == email_entity(),
        rows_affected > 0 ==> r == Ok::<WsEvent, AppError>(WsEvent::EmailDeleted(id)),
{
    if rows_affected == 0 {
        Err(email_not_found())
    } else {
        Ok(WsEvent::EmailDeleted(id))
    }
}

/// An update with no field present leaves every field as stored.
pub proof fn lemma_empty_email_update(e: Email, p: UpdateEmail)
    requires
        p.subject is None,
        p.body is None,
    ensures
        p.problems().len() == 0,
        merged_email(e, p) == email_fields(e),
{
    assert(p.problems() =~= Seq::empty());
}

} // verus!
