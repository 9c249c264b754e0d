//! The decision logic of a small lending-library service: users, books and
//! borrow records kept in a relational store, with a read-through cache in
//! front of the two user reads.
//!
//! Nothing here touches a socket. Each request handler is a function from the
//! phase a request is in and the event that just happened to the next phase
//! and the one action to perform; the caller performs the action and reports
//! back what came of it.

pub mod books;
pub mod borrow;
pub mod handler;
pub mod json;
pub mod laws;
pub mod prelude;
pub mod statement;
pub mod timestamp;
pub mod users;
pub mod value;
pub mod world;
