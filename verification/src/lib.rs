//! Decision logic of a backup manager for a single local database file.
//!
//! The manager never touches the file system itself. Each operation is a
//! small state machine: it names the next file-system action to perform, is
//! told how that action went, and finally reports an outcome.
//!
//! - [`protocol`] holds the requests, actions, events and outcomes.
//! - [`manager`] holds the steps of each operation.
//! - [`listing`] turns directory entries into a listing, newest first.
//! - [`names`] holds the names of the files that the manager keeps.
//! - [`clock`] reads the local time.
//! - [`printing`] drives the print spooler in the same manner.
//! - [`model`] and [`laws`] state what holds of whole operations.

pub mod clock;
pub mod greeting;
pub mod laws;
pub mod listing;
pub mod manager;
pub mod model;
pub mod names;
pub mod printing;
pub mod protocol;
pub mod text;
pub mod types;
