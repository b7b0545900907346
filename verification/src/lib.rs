//! The room runtime of a real-time collaboration server.
//!
//! Peers meet in rooms. A room keeps its peers and the last document pushed
//! to it, and publishes what happens in it on a bus of its own. The registry
//! holds the rooms that are live; a room that is asked for and is not live
//! is revived from what persistence has saved, and a room that stays empty
//! for too long is evicted. Each connected peer has a session, which follows
//! a small protocol. Beside the rooms, a scheduler decides when the digest
//! of a workspace is due and composes it.
//!
//! The library decides and keeps state; sockets, the database and timers
//! belong to the program around it. Times are `i64` milliseconds since the
//! Unix epoch, keys of the database are hexadecimal strings.
//!
//! Outside crates are reached through a few small functions whose contracts
//! are taken on trust: `dashmap` for the registry and the peers of a room,
//! `tokio` for the bus, `uuid` and `rand` for ids, codes and tokens,
//! `chrono` for the calendar date of a digest, `bcrypt` for passwords.
//! JSON values of `serde_json` are carried through unread. Everything else
//! is proved against those contracts.

pub mod config;
pub mod handlers;
pub mod models;
pub mod rate_limit;
pub mod repositories;
pub mod services;
pub mod state;
pub mod text;
