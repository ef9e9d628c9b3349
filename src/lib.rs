//! A newsletter service: visitors subscribe with double opt-in confirmation,
//! and an operator authenticated with HTTP Basic credentials broadcasts issues
//! to the confirmed subscribers.
//!
//! Every module here is verified. The HTTP server, the database and the email
//! transport are left to the program that embeds the library.

pub mod authentication;
pub mod basic_auth;
pub mod configuration;
pub mod domain;
pub mod models;
pub mod newsletters;
pub mod store;
pub mod subscriptions;
pub mod subscriptions_confirm;
pub mod text;
