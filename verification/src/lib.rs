//! An in-memory store of user records and the request handlers that drive it.
//!
//! The store keeps its records in insertion order and finds them by a linear
//! scan for the first record with a given id. Ids are not required to be
//! unique. Every operation is specified over the sequence of record views.
//!
//! - `user`: the record.
//! - `store`: the sequence of records and its four operations.
//! - `handlers`: one handler per request, from store and request to response.
//! - `laws`: what holds between the operations.
//! - `shared`: the store behind one exclusive lock, for concurrent callers.

pub mod user;
pub mod store;
pub mod handlers;
pub mod laws;
pub mod shared;
