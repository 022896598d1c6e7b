//! Core of a university course-review board: a content-fingerprinted
//! read-through cache over the course-group listing, a set-semantics vote
//! ledger, an append-only edit-history log, and a bounded-retry random
//! review sampler, together with the in-memory store they operate on.

pub mod auth;
pub mod cache;
pub mod error;
pub mod fingerprint;
pub mod json;
pub mod listing;
pub mod model;
pub mod review;
pub mod store;
pub mod vote;
