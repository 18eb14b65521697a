//! A small data-access library for a user account store: it creates user
//! records with hashed credentials and looks a user up by username or email.
//!
//! The table semantics (unique usernames, unique emails, server-assigned
//! identifiers and creation stamps, the dual-column lookup) are stated over a
//! mathematical model in [`model`] and proved of the executable repository in
//! [`repo`]. The cross-call guarantees are proved in [`laws`].

pub mod errors;
pub mod hasher;
pub mod laws;
pub mod model;
pub mod repo;
pub mod user;
