//! Identity and session core of a small project-management service.
//!
//! The crate holds the in-memory identity store (users, pending
//! registrations, sessions, one-time reset codes), the credential hasher,
//! the session guard, and the revision-aware protocol that keeps user
//! records and project documents in a remote document store.  Everything
//! that touches the network is expressed as a step function: it is handed
//! the outcome of the previous exchange and answers with the next request
//! or with the final result.

pub mod strmap;
pub mod clock;
pub mod hasher;
pub mod token;
pub mod auth;
pub mod db;
pub mod store;
pub mod config;
pub mod text;
pub mod utils;
pub mod handlers;
