//! A small record store over an embedded SQL database: one `users` table
//! (id, name, age, address) with create, list, update and delete, each
//! operation one parameterized statement against a rusqlite connection.
//!
//! The table is modelled as a map from id to (name, age, address); every
//! operation's contract says how it changes that map, and `model` proves the
//! store's laws over it.
pub mod engine;
pub mod model;
pub mod rows;
pub mod store;
