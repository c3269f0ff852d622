//! Credential checks, payload validation and the decisions of a small
//! book/email REST service, with their contracts proved by Verus.
pub mod accounts;
pub mod auth;
pub mod books;
pub mod emails;
pub mod error;
pub mod models;
pub mod ws;
