//! An OAuth2 authorization-code login backend.
//!
//! The library validates the CSRF state echoed by the identity provider,
//! drives the code-for-token exchange and profile fetch as a small state
//! machine, records first-time users in a store with unique identifiers,
//! and resolves a session-held identifier back to its user record.

pub mod auth;
pub mod provider;
pub mod store;
pub mod user;
