//! Ingestion of repository activity from a code-forge REST API into a
//! relational store.
//!
//! The library decides; its caller performs. It says which request to
//! send and what a reply means ([`github`]), which rows a batch of records
//! becomes and in which steps they are written ([`db`]), what those steps
//! do to a table ([`store`]), which repository an address names
//! ([`address`]), and what the settings of a run are ([`config`]). Sending,
//! decoding and writing are left to the caller, who reports back what
//! happened.

pub mod address;
pub mod config;
pub mod db;
pub mod errors;
pub mod git_ops;
pub mod github;
pub mod records;
pub mod store;
pub mod text;
