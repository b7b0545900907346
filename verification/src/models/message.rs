//! The messages a peer and the server exchange, and process-wide events.

use crate::models::room::{peer_views, PeerInfo, PeerInfoView};
use vstd::prelude::*;

verus! {

/// What a peer sends to the server.
#[derive(Debug, Clone, PartialEq)]
pub enum ClientMessage {
    Join { room_code: String, peer_id: String, is_host: bool, metadata: Option<serde_json::Value> },
    Leave,
    Broadcast { data: String },
    SyncDocument { document: String },
    RequestSync,
    Ping,
}

/// What a `ClientMessage` stands for.
pub enum ClientMessageView {
    Join { room_code: Seq<char>, peer_id: Seq<char>, is_host: bool, metadata: Option<serde_json::Value> },
    Leave,
    Broadcast { data: Seq<char> },
    SyncDocument { document: Seq<char> },
    RequestSync,
    Ping,
}

impl View for ClientMessage {
    type V = ClientMessageView;

    open spec fn view(&self) -> ClientMessageView {
        match self {
            ClientMessage::Join { room_code, peer_id, is_host, metadata } => ClientMessageView::Join {
                room_code: room_code@,
                peer_id: peer_id@,
                is_host: *is_host,
                metadata: *metadata,
            },
            ClientMessage::Leave => ClientMessageView::Leave,
            ClientMessage::Broadcast { data } => ClientMessageView::Broadcast { data: data@ },
            ClientMessage::SyncDocument { document } => ClientMessageView::SyncDocument {
                document: document@,
            },
            ClientMessage::RequestSync => ClientMessageView::RequestSync,
            ClientMessage::Ping => ClientMessageView::Ping,
        }
    }
}

/// What the server sends to a peer.
#[derive(Debug, Clone, PartialEq)]
pub enum ServerMessage {
    Connected { peer_id: String, room_code: String },
    PeerJoined { peer: PeerInfo },
    PeerLeft { peer_id: String },
    Data { from: String, data: String },
    DocumentSync { document: String },
    Error { message: String },
    RoomInfo { room_code: String, host_id: String, peers: Vec<PeerInfo> },
    Pong,
}

/// What a `ServerMessage` stands for.
pub enum ServerMessageView {
    Connected { peer_id: Seq<char>, room_code: Seq<char> },
    PeerJoined { peer: PeerInfoView },
    PeerLeft { peer_id: Seq<char> },
    Data { from: Seq<char>, data: Seq<char> },
    DocumentSync { document: Seq<char> },
    Error { message: Seq<char> },
    RoomInfo { room_code: Seq<char>, host_id: Seq<char>, peers: Seq<PeerInfoView> },
    Pong,
}

impl View for ServerMessage {
    type V = ServerMessageView;

    open spec fn view(&self) -> ServerMessageView {
        match self {
            ServerMessage::Connected { peer_id, room_code } => ServerMessageView::Connected {
                peer_id: peer_id@,
                room_code: room_code@,
            },
            ServerMessage::PeerJoined { peer } => ServerMessageView::PeerJoined { peer: peer@ },
            ServerMessage::PeerLeft { peer_id } => ServerMessageView::PeerLeft {
                peer_id: peer_id@,
            },
            ServerMessage::Data { from, data } => ServerMessageView::Data {
                from: from@,
                data: data@,
            },
            ServerMessage::DocumentSync { document } => ServerMessageView::DocumentSync {
                document: document@,
            },
            ServerMessage::Error { message } => ServerMessageView::Error { message: message@ },
            ServerMessage::RoomInfo { room_code, host_id, peers } => ServerMessageView::RoomInfo {
                room_code: room_code@,
                host_id: host_id@,
                peers: peer_views(peers@),
            },
            ServerMessage::Pong => ServerMessageView::Pong,
        }
    }
}

/// The views of a list of server messages, in the same order.
pub open spec fn message_views(list: Seq<ServerMessage>) -> Seq<ServerMessageView> {
    list.map_values(|m: ServerMessage| m@)
}

/// Events that concern the whole process.
#[derive(Debug, Clone, PartialEq)]
pub enum SystemEvent {
    RoomCreated { room_id: String },
    RoomClosed { room_id: String },
    Shutdown,
}

} // verus!
