//! Registration logic of the ATACC sign-up site: input normalisation,
//! the decisions taken around the `users` table, the verification e-mail
//! and the pages and messages shown to the user.

pub mod config;
pub mod form;
pub mod mail;
pub mod registration;
pub mod schedule;
pub mod store;
pub mod text;
pub mod verify_page;
