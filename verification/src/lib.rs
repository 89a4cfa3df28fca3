//! Core of a small polling service: an administrator creates a voting with an
//! ordered list of polls, registers voters, opens one poll at a time, and
//! voters accept, decline or abstain.
//!
//! Every rule of the service is an executable function with a contract that
//! Verus proves: input validation, the two authorization guards, the life
//! cycle of the active poll, vote uniqueness and the tallies.
//!
//! - [`utils`]: hashing of bearer keys, fresh keys, errors, the caller.
//! - [`validators`]: what a request may carry.
//! - [`models`], [`dtos`]: rows, and the bodies of requests and responses.
//! - [`store`], [`writes`], [`consistency`]: the rows that the service keeps,
//!   the constraints on writing them, and the proof that the constraints keep
//!   the store consistent.
//! - [`actions`]: looking rows up, writing new ones, the two guards.
//! - [`routes`]: the operations of the service.
//! - [`tally`]: counting votes and naming the outcome.
//! - [`guarantees`]: what holds of the service as a whole.
//! - [`rows`], [`text`], [`cors`]: searching a table, rendering numbers, and
//!   the cross-origin headers.
//!
//! The store is a plain value. A server reads the rows that a request
//! concerns into a [`store::Store`], calls the operation, and writes back what
//! the operation added or changed.

pub mod actions;
pub mod consistency;
pub mod cors;
pub mod dtos;
pub mod guarantees;
pub mod models;
pub mod routes;
pub mod rows;
pub mod store;
pub mod tally;
pub mod text;
pub mod utils;
pub mod validators;
pub mod writes;
