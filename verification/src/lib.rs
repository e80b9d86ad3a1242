//! A small catalog service core: it stores records describing named entities
//! ("cats"), each with an attached image asset, and decides how HTTP requests
//! that list, fetch and create such records are validated, executed against a
//! store, and answered.
//!
//! The crate holds the request-handling logic itself: input validation, the
//! multipart field rules, derivation of collision-free image paths, the record
//! store semantics, and the error taxonomy with its mapping to HTTP status
//! codes. Network transport, the relational store and the filesystem sit
//! outside; they hand this library plain values and take plain values back.

pub mod digits;
pub mod errors;
pub mod handlers;
pub mod models;
pub mod multipart;
pub mod repo;
pub mod validation;
