//! Issuance, validation and transparent renewal of signed bearer credentials,
//! together with a brute-force lockout policy for password login.
//!
//! The crate is organised around a small set of components: a token codec
//! over a symmetric signing scheme, an in-memory session store with a
//! token-uniqueness invariant, a pure lockout policy, a login authenticator,
//! a token validator, a refresh coordinator that atomically rotates a
//! session's token pair, and the authorisation middleware that composes them per
//! request. Time is always injected as a parameter; nothing here reads a
//! clock, the environment, or performs I/O.

pub mod config;
pub mod errors;
pub mod middleware;
pub mod jwt;
pub mod lockout;
pub mod login;
pub mod models;
pub mod oauth;
pub mod password;
pub mod refresh;
pub mod register;
pub mod reset;
pub mod store;
mod text;
pub mod validate;

pub use config::AuthConfig;
