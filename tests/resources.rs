use book_mail_api::books::{create_book_event, delete_book, update_book_event, get_book_by_id, update_book, BookChanges};
use book_mail_api::emails::{create_email_event, delete_email, update_email_event, get_email_by_id, update_email, EmailChanges};
use book_mail_api::error::{AppError, FieldError};
use book_mail_api::models::{Book, Email, UpdateBook, UpdateEmail};
use book_mail_api::ws::WsEvent;

fn book() -> Book {
    Book {
        id: 7,
        title: "Dune".to_string(),
        author: "Herbert".to_string(),
        publication_year: Some(1965),
        created_at: 1,
        updated_at: 2,
    }
}

fn email() -> Email {
    Email {
        id: 9,
        sender: "a@x.com".to_string(),
        recipient: "b@y.org".to_string(),
        subject: "Hi".to_string(),
        body: Some("hello".to_string()),
        sent_at: 3,
    }
}

#[test]
fn empty_book_update_keeps_fields() {
    let p = UpdateBook { title: None, author: None, publication_year: None };
    let c = update_book(Some(book()), &p).unwrap();
    assert_eq!(c, BookChanges { title: "Dune".to_string(), author: "Herbert".to_string(), publication_year: Some(1965) });
}

#[test]
fn book_update_overwrites_present_fields() {
    let p = UpdateBook { title: Some("Dune Messiah".to_string()), author: None, publication_year: Some(1969) };
    let c = update_book(Some(book()), &p).unwrap();
    assert_eq!(c, BookChanges { title: "Dune Messiah".to_string(), author: "Herbert".to_string(), publication_year: Some(1969) });
}

#[test]
fn book_update_validates_before_lookup() {
    let p = UpdateBook { title: Some(String::new()), author: None, publication_year: None };
    assert_eq!(update_book(None, &p), Err(AppError::ValidationError(vec![FieldError { field: "title".to_string(), message: "Judul tidak boleh kosong".to_string() }])));
    let p = UpdateBook { title: None, author: None, publication_year: None };
    assert_eq!(update_book(None, &p), Err(AppError::NotFound("Buku".to_string())));
}

#[test]
fn book_lookup() {
    assert_eq!(get_book_by_id(Some(book())), Ok(book()));
    let e = get_book_by_id(None).unwrap_err();
    assert_eq!(e, AppError::NotFound("Buku".to_string()));
    assert_eq!(e.status_code(), 404);
}

#[test]
fn book_deletion_events() {
    assert_eq!(delete_book(7, 0), Err(AppError::NotFound("Buku".to_string())));
    assert_eq!(delete_book(7, 1), Ok(WsEvent::BookDeleted(7)));
}

#[test]
fn empty_email_update_keeps_fields() {
    let p = UpdateEmail { subject: None, body: None };
    let c = update_email(Some(email()), &p).unwrap();
    assert_eq!(c, EmailChanges { subject: "Hi".to_string(), body: Some("hello".to_string()) });
}

#[test]
fn email_update_overwrites_present_fields() {
    let p = UpdateEmail { subject: Some("Re: Hi".to_string()), body: Some("bye".to_string()) };
    let c = update_email(Some(email()), &p).unwrap();
    assert_eq!(c, EmailChanges { subject: "Re: Hi".to_string(), body: Some("bye".to_string()) });
    assert_eq!(update_email(None, &p), Err(AppError::NotFound("Email".to_string())));
}

#[test]
fn email_update_rejects_empty_subject() {
    let p = UpdateEmail { subject: Some(String::new()), body: None };
    assert_eq!(
        update_email(Some(email()), &p),
        Err(AppError::ValidationError(vec![FieldError { field: "subject".to_string(), message: "Subjek tidak boleh kosong".to_string() }]))
    );
}

#[test]
fn creation_and_update_events() {
    assert_eq!(create_book_event(book()), WsEvent::BookCreated(book()));
    assert_eq!(update_book_event(book()), WsEvent::BookUpdated(book()));
    assert_eq!(create_email_event(email()), WsEvent::EmailCreated(email()));
    assert_eq!(update_email_event(email()), WsEvent::EmailUpdated(email()));
}

#[test]
fn email_lookup_and_deletion() {
    assert_eq!(get_email_by_id(Some(email())), Ok(email()));
    assert_eq!(get_email_by_id(None), Err(AppError::NotFound("Email".to_string())));
    assert_eq!(delete_email(9, 0), Err(AppError::NotFound("Email".to_string())));
    assert_eq!(delete_email(9, 1), Ok(WsEvent::EmailDeleted(9)));
}
