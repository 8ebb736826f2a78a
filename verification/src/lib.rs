//! Session authentication and token rotation for the disaster-relief backend.
//!
//! Every inbound request carries a bearer credential. This crate decides what
//! to do with it: it extracts the credential, checks its signature, compares
//! it with the single token the identity store holds for its subject, renews
//! it when it has run out, and checks the subject's role against the role a
//! route requires. The store and the HTTP layer stay outside: the crate tells
//! its caller which store operation to perform next and takes the outcome
//! back as an event.

pub mod account;
pub mod bearer;
pub mod clock;
pub mod codec;
pub mod config;
pub mod disaster;
pub mod error;
pub mod feed;
pub mod gate;
pub mod laws;
pub mod log;
pub mod pipeline;
pub mod records;
pub mod reply;
pub mod resources;
pub mod rotator;
pub mod routes;
pub mod shelters;
pub mod store;
pub mod text;
pub mod validator;
