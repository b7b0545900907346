//! What the server decides for each thing that reaches it: a frame on a peer
//! socket, an event on a room bus, a request over HTTP.

pub mod auth_handler;
pub mod data_handler;
pub mod room_handler;
pub mod workspace_handler;
pub mod ws_handler;
