//! Verified core of the txio API's storage layer.
//!
//! The MongoDB repositories of the API only ever send a document, a filter or
//! an index to the database and interpret what comes back.  This crate holds
//! everything those repositories decide: the documents and errors as plain
//! values, the index definitions, the order of the index set-up, the queries
//! handed to the database, and how each reply is turned into a result.

pub mod model;
pub mod workspace;
pub mod error;
pub mod outcome;
pub mod otp;
pub mod indexes;
pub mod queries;
pub mod routes;
