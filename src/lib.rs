//! A verified schema registry: applications, their collections, and the typed
//! attributes, instructions, arguments and accounts defined on them, each stored
//! as a record at a deterministic address.
pub mod account_ops;
pub mod accounts;
pub mod address;
pub mod attribute_ops;
pub mod error;
pub mod instruction_ops;
pub mod kinds;
pub mod laws;
pub mod name;
pub mod operations;
pub mod records;
pub mod registry;
pub mod schema;
