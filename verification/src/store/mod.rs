//! The pattern store: rows, the requests made of the database, and the order
//! in which each operation makes them.

pub mod create;
pub mod delete;
pub mod errors;
pub mod get;
pub mod laws;
pub mod list;
pub mod model;
pub mod order;
pub mod protocol;
pub mod rows;
pub mod update;
