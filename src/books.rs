//! The decisions of the book endpoints: lookup, merge-on-provided-fields
//! update and deletion, each around one store round trip.
use vstd::prelude::*;
use crate::error::AppError;
use crate::models::{Book, UpdateBook, rejected};
use crate::ws::WsEvent;

verus! {

/// The entity name in a book's not-found message.
pub open spec fn book_entity() -> Seq<char> {
    "Buku"@
}

fn book_not_found() -> (r: AppError)
    ensures
        r is NotFound && r->NotFound_0@ == book_entity(),
{
    AppError::NotFound(String::from_str("Buku"))
}

/// The values an update writes back: the field of the payload where it is
/// present, else the stored one.
#[derive(Debug, Clone, PartialEq, Eq)]
pub struct BookChanges {
    pub title: String,
    pub author: String,
    pub publication_year: Option<i32>,
}

/// The fields of a book that an update can change.
pub open spec fn book_fields(b: Book) -> (Seq<char>, Seq<char>, Option<i32>) {
    (b.title@, b.author@, b.publication_year)
}

/// The fields after merging the payload into the stored book.
pub open spec fn merged_book(b: Book, p: UpdateBook) -> (Seq<char>, Seq<char>, Option<i32>) {
    (
        match p.title {
            Some(t) => t@,
            None => b.title@,
        },
        match p.author {
            Some(a) => a@,
            None => b.author@,
        },
        match p.publication_year {
            Some(y) => Some(y),
            None => b.publication_year,
        },
    )
}

impl BookChanges {
    pub open spec fn fields(&self) -> (Seq<char>, Seq<char>, Option<i32>) {
        (self.title@, self.author@, self.publication_year)
    }
}

/// The answer to a lookup by id: the row, or not-found.
pub fn get_book_by_id(row: Option<Book>) -> (r: Result<Book, AppError>)
    ensures
        match row {
            Some(b) => r == Ok::<Book, AppError>(b),
            None => r is Err && r->Err_0 is NotFound && r->Err_0->NotFound_0@ == book_entity(),
        },
{
    match row {
        Some(b) => Ok(b),
        None => Err(book_not_found()),
    }
}

/// The values to write for an update of the stored row `row` by `payload`.
/// The payload is validated first, before the row is consulted.
pub fn update_book(row: Option<Book>, payload: &UpdateBook) -> (r: Result<BookChanges, AppError>)
    ensures
        payload.problems().len() > 0 ==> r is Err && rejected(r->Err_0, payload.problems()),
        payload.problems().len() == 0 ==> match row {
            Some(b) => r is Ok && r->Ok_0.fields() == merged_book(b, *payload),
            None => r is Err && r->Err_0 is NotFound && r->Err_0->NotFound_0@ == book_entity(),
        },
{
    match payload.validate() {
        Err(e) => return Err(e),
        Ok(()) => {},
    }
    let b = match row {
        Some(b) => b,
        None => return Err(book_not_found()),
    };
    let title = match &payload.title {
        Some(t) => t.clone(),
        None => b.title,
    };
    let author = match &payload.author {
        Some(a) => a.clone(),
        None => b.author,
    };
    let publication_year = match payload.publication_year {
        Some(y) => Some(y),
        None => b.publication_year,
    };
    Ok(BookChanges { title, author, publication_year })
}

/// The event announcing a newly created book.
pub fn create_book_event(created: Book) -> (r: WsEvent)
    ensures
        r == WsEvent::BookCreated(created),
{
    WsEvent::BookCreated(created)
}

/// The event announcing a book after its update.
pub fn update_book_event(updated: Book) -> (r: WsEvent)
    ensures
        r == WsEvent::BookUpdated(updated),
{
    WsEvent::BookUpdated(updated)
}

/// The answer to deleting the book `id`, given how many rows the store
/// removed: not-found and no event when none was, else exactly one
/// deletion event carrying the id.
pub fn delete_book(id: u128, rows_affected: u64) -> (r: Result<WsEvent, AppError>)
    ensures
        rows_affected == 0 ==> r is Err && r->Err_0 is NotFound && r->Err_0->NotFound_0@
            == book_entity(),
        rows_affected > 0 ==> r == Ok::<WsEvent, AppError>(WsEvent::BookDeleted(id)),
{
    if rows_affected == 0 {
        Err(book_not_found())
    } else {
        Ok(WsEvent::BookDeleted(id))
    }
}

/// An update with no field present leaves every field as stored.
pub proof fn lemma_empty_book_update(b: Book, p: UpdateBook)
    requires
        p.title is None,
        p.author is None,
        p.publication_year is None,
    ensures
        p.problems().len() == 0,
        merged_book(b, p) == book_fields(b),
{
    assert(p.problems() =~= Seq::empty());
}

} // verus!
