//! A storage mediator for an authenticated key directory.
//!
//! The mediator stands between the directory and its backing store. It keeps
//! a timed cache of records, buffers the writes of one open transaction, and
//! merges what the transaction, the cache and the store hold when a record or
//! a user's state is read.
//!
//! The mediator is a plain value: its operations take `&mut self`, and those
//! that touch the cache are told the time, in milliseconds on a clock that
//! the caller reads. The backing store is any [`database::Database`]; the
//! store in [`memory`] keeps its records in memory.
//!
//! Every operation has a contract over the models in [`model`], and [`laws`]
//! holds what follows for several operations together.
pub mod cache;
pub mod database;
pub mod error;
pub mod laws;
pub mod manager;
pub mod memory;
pub mod merge;
pub mod model;
pub mod report;
pub mod select;
pub mod table;
pub mod transaction;
pub mod types;
