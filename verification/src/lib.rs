//! Coordination core for a fleet of snowflake-id generator processes.
//!
//! A generator needs an exclusive worker-id slot from a small fixed space.
//! The slot is either leased from a central pool over a persistent
//! connection, or claimed fleet-wide through a quorum lock with renewal.
//! This crate holds that coordination logic together with the bit-packed
//! id encoding and its textual encodings; transport, clocks and lock
//! stores stay outside and hand plain values in.

pub mod config;
pub mod encoder;
pub mod formats;
pub mod health;
pub mod lease;
pub mod lock;
pub mod pool;
pub mod routes;
