//! The rules of the runtime: room lifecycle, digests, accounts, workspaces.

pub mod auth_service;
pub mod notification_service;
pub mod room_service;
pub mod workspace_service;
