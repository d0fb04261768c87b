//! Derivation and disk-backed caching of symbol-lookup artifacts ("symcaches").
//!
//! The library decides what a computation persists for a cache slot, how those
//! bytes are read back, and which error a caller observes.
pub mod compute;
pub mod coordinator;
pub mod error;
pub mod outcome;
pub mod symcache;
pub mod types;
