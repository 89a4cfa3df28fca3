//! Reading and writing the rows of the store, and the two guards.

pub mod check;
pub mod find;
pub mod get;
pub mod insert;
pub mod update;
