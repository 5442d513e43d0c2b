//! Anonymous file-drop core: upload admission pipeline and access ledger.
//!
//! The library validates an uploaded byte buffer by its content signature,
//! gates the request on a bearer token, names the stored object with a
//! randomly generated identifier, and keeps the object store and the
//! metadata ledger that record uploads and downloads.

pub mod auth;
pub mod classify;
pub mod idgen;
pub mod ledger;
pub mod orchestrator;
pub mod store;
