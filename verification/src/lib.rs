//! Validated construction of a request made of a name and an email address.
//!
//! A request is built from two raw texts by a fixed chain of checks that stops
//! at the first failure; only a request that passed every check has its email
//! lowercased.

pub mod laws;
pub mod railway;
pub mod request;
pub mod text;

pub use railway::switch;
pub use request::Request;
pub use request::RequestView;
