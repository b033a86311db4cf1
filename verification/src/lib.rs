//! Identity-verification and credential-issuance core of a voter-account
//! service.
//!
//! The crate authenticates a principal through a legacy or modern password
//! hash, a one-time email or phone code, or a federated identity callback,
//! and on success issues signed, time-bounded tokens.  External collaborators
//! (the document store holding voter records and the key/value store holding
//! one-time codes and pending sessions) are modelled by verified in-memory
//! stores with the same contracts.

pub mod account_management;
pub mod codes;
pub mod entropy;
pub mod laws;
pub mod legacy_login;
pub mod models;
pub mod new_login;
pub mod password;
pub mod session;
pub mod strfmt;
pub mod thbwiki_login;
pub mod token;
pub mod store;
pub mod ttlmap;
