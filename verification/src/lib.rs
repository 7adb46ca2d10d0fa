//! Keeps the content of one DNS record equal to an address that another
//! agent publishes under a key of a shared store.
//!
//! The library holds every decision of the daemon: how requests to the
//! record API are addressed and how its replies are read, how the settings
//! are completed, and the reconciliation loop itself, written as a machine
//! that is handed the outcome of each outside operation and answers with
//! the next one. Performing the operations is left to the caller.

pub mod text;
pub mod failure;
pub mod clients;
pub mod cloudflare;
pub mod config;
pub mod reconcile;
pub mod laws;
