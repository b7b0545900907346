//! The data carried by rooms, sessions, workspaces and accounts.

pub mod auth;
pub mod data;
pub mod message;
pub mod profile;
pub mod room;
pub mod user;
pub mod workspace;
