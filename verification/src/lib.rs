//! Verified core of the Circle messaging platform backend.
//!
//! The heart of the crate is the authentication and session security
//! engine: credential hashing, token issuance and validation, failed
//! login tracking with account lockout, and the irreversible account
//! destruction trigger. The engine's state transitions are specified
//! and proved over an in-memory relational store model; calls into
//! cryptographic crates stand behind a small set of trusted wrappers.

pub mod admin;
pub mod analyzer;
pub mod auth;
pub mod config;
pub mod crypto;
pub mod encryption;
pub mod events;
pub mod governance;
pub mod laws;
pub mod membership;
pub mod messaging;
pub mod multisig;
pub mod nlp;
pub mod policy;
pub mod rbac;
pub mod recommend;
pub mod security;
pub mod session;
pub mod store;
pub mod strutil;
pub mod threat;
pub mod user;
pub mod vault;
pub mod websocket;

pub use strutil::str_eq;
