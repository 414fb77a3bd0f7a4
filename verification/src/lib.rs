//! A passkey login service: two-phase WebAuthn registration and
//! authentication ceremonies bound to a server-side login session, with the
//! credential store, the challenge-session plumbing and the backend
//! authenticator verified against their contracts. The cryptographic
//! verification of signed attestations and assertions stays with the
//! outside ceremony verifier, behind the trusted boundary in `ceremony`.

pub mod authentication;
pub mod backend;
pub mod ceremony;
pub mod client;
pub mod num;
pub mod pages;
pub mod passkeys;
pub mod registration;
pub mod session;
pub mod slug;
pub mod store;
pub mod strutil;
pub mod tus;
