//! Validation and storage protocol for TB-303 style step-sequencer patterns.
//!
//! The crate has two layers. The validator turns a loosely typed submission
//! into a pattern whose steps are numbered `1..=N` without gaps or repeats.
//! The store describes, one database request at a time, how such a pattern
//! is created, replaced, deleted and read back under an owner.

pub mod common;
pub mod domain;
pub mod ids;
pub mod models;
pub mod rules;
pub mod store;
pub mod text;
pub mod utils;
pub mod validation;
