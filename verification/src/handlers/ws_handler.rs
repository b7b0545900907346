//! The session of one connected peer.
//!
//! A session starts unbound. A `Join` binds it to a room and a peer id; from
//! then on it may broadcast, push and request the room's document, and
//! leave. Each function here takes what has reached the session and the
//! registry of live rooms, changes both as the protocol asks, hands the
//! room's events to its bus, and returns what is to be sent to the peer.
//! Reading and writing the socket, waiting on the bus and asking persistence
//! are left to the caller.

use crate::models::message::{
    message_views, ClientMessage, ClientMessageView, ServerMessage, ServerMessageView,
    SystemEvent,
};
use crate::models::room::{
    event_views, fresh_room, lists_peers, PeerInfo, PeerInfoView, RoomEvent, RoomEventView,
    RoomView,
};
use crate::services::room_service::{
    ensure_room_exists, is_generated_host_id, is_hyphenated_uuid, revival_allowed,
    RevivalRecord, RevivalRecordView,
};
use crate::state::{RoomMap, RoomRegistry};
use vstd::prelude::*;

verus! {

/// The cursors of a session: the room it is bound to and the peer id it is
/// bound as. Both are set or neither is.
#[derive(Debug, Clone, PartialEq)]
pub struct Session {
    pub current_room: Option<String>,
    pub current_peer_id: Option<String>,
}

/// What a `Session` stands for.
pub struct SessionView {
    pub current_room: Option<Seq<char>>,
    pub current_peer_id: Option<Seq<char>>,
}

impl View for Session {
    type V = SessionView;

    open spec fn view(&self) -> SessionView {
        SessionView {
            current_room: match self.current_room {
                Some(code) => Some(code@),
                None => None,
            },
            current_peer_id: match self.current_peer_id {
                Some(id) => Some(id@),
                None => None,
            },
        }
    }
}

impl SessionView {
    /// The invariant of a session: bound to a room and a peer id, or to
    /// neither.
    pub open spec fn wf(self) -> bool {
        self.current_room is Some <==> self.current_peer_id is Some
    }

    /// Whether the session has joined a room.
    pub open spec fn is_bound(self) -> bool {
        self.current_room is Some && self.current_peer_id is Some
    }
}

/// The session that has joined nothing.
pub open spec fn unbound() -> SessionView {
    SessionView { current_room: None, current_peer_id: None }
}

/// The session that has joined `room_code` as `peer_id`.
pub open spec fn bound_to(room_code: Seq<char>, peer_id: Seq<char>) -> SessionView {
    SessionView { current_room: Some(room_code), current_peer_id: Some(peer_id) }
}

/// A snapshot to be written back to persistence, keyed by room code.
#[derive(Debug, Clone, PartialEq)]
pub struct SnapshotWrite {
    pub room_code: String,
    pub document: String,
}

/// What handling one input has led to.
#[derive(Debug)]
pub struct SessionStep {
    /// What is to be sent to this peer, in this order.
    pub replies: Vec<ServerMessage>,
    /// What was handed to the room's bus, in this order.
    pub published: Vec<RoomEvent>,
    /// The subscription to the room's bus, taken before the join was
    /// published.
    pub subscription: Option<tokio::sync::broadcast::Receiver<RoomEvent>>,
    /// The snapshot to write back, without waiting for the outcome.
    pub persist: Option<SnapshotWrite>,
    /// Whether the session is over.
    pub close: bool,
}

/// What a `SessionStep` stands for.
pub struct SessionStepView {
    pub replies: Seq<ServerMessageView>,
    pub published: Seq<RoomEventView>,
    pub subscribed: bool,
    pub persist: Option<(Seq<char>, Seq<char>)>,
    pub close: bool,
}

impl View for SessionStep {
    type V = SessionStepView;

    open spec fn view(&self) -> SessionStepView {
        SessionStepView {
            replies: message_views(self.replies@),
            published: event_views(self.published@),
            subscribed: self.subscription is Some,
            persist: match self.persist {
                Some(write) => Some((write.room_code@, write.document@)),
                None => None,
            },
            close: self.close,
        }
    }
}

/// The step that sends `replies`, has published `published`, and does
/// nothing else.
pub open spec fn plain_step(
    replies: Seq<ServerMessageView>,
    published: Seq<RoomEventView>,
) -> SessionStepView {
    SessionStepView { replies, published, subscribed: false, persist: None, close: false }
}

/// Why a message of a peer was not acted on.
#[derive(Debug, Clone, Copy, PartialEq, Eq)]
pub enum SessionError {
    /// The message needs a joined session.
    NotJoined,
    /// A join came from a session that has joined already.
    AlreadyJoined,
    /// No room is live under the code and none may be revived under it.
    RoomNotFound,
}

/// The text sent to the peer for an error.
pub open spec fn session_error_text(error: SessionError) -> Seq<char> {
    match error {
        SessionError::NotJoined => "not joined"@,
        SessionError::AlreadyJoined => "already joined"@,
        SessionError::RoomNotFound => "Room not found"@,
    }
}

impl SessionError {
    /// The text sent to the peer for this error.
    pub fn message(&self) -> (text: String)
        ensures
            text@ == session_error_text(*self),
    {
        match self {
            SessionError::NotJoined => "not joined".to_string(),
            SessionError::AlreadyJoined => "already joined".to_string(),
            SessionError::RoomNotFound => "Room not found".to_string(),
        }
    }
}

/// What a room event becomes for the session bound as `me`: joins and
/// departures are passed on, data and document updates of other peers are
/// passed on, a session's own data and document updates are not echoed, and
/// a change of host is not passed on.
pub open spec fn forwarded(
    event: RoomEventView,
    me: Option<Seq<char>>,
) -> Option<ServerMessageView> {
    match event {
        RoomEventView::PeerJoined { peer } => Some(ServerMessageView::PeerJoined { peer }),
        RoomEventView::PeerLeft { peer_id } => Some(ServerMessageView::PeerLeft { peer_id }),
        RoomEventView::DataSync { from, data } => if me == Some(from) {
            None
        } else {
            Some(ServerMessageView::Data { from, data })
        },
        RoomEventView::DocumentUpdate { from, document } => if me == Some(from) {
            None
        } else {
            Some(ServerMessageView::DocumentSync { document })
        },
        RoomEventView::HostChanged { new_host_id } => None,
    }
}

/// What a run of room events becomes for the session bound as `me`: what
/// each event becomes, in the order of the events.
pub open spec fn forwarded_all(events: Seq<RoomEventView>, me: Option<Seq<char>>) -> Seq<ServerMessageView>
    decreases events.len(),
{
    if events.len() == 0 {
        Seq::empty()
    } else {
        let earlier = forwarded_all(events.drop_last(), me);
        match forwarded(events.last(), me) {
            Some(message) => earlier.push(message),
            None => earlier,
        }
    }
}

/// Translates an event of the room's bus into what is sent to the peer of
/// the session bound as `current_peer_id`, if anything.
pub fn forward_room_event(event: RoomEvent, current_peer_id: Option<&String>) -> (message: Option<
    ServerMessage,
>)
    ensures
        match message {
            Some(m) => Some(m@),
            None => None,
        } == forwarded(
            event@,
            match current_peer_id {
                Some(id) => Some(id@),
                None => None,
            },
        ),
{
    match event {
        RoomEvent::PeerJoined { peer } => Some(ServerMessage::PeerJoined { peer }),
        RoomEvent::PeerLeft { peer_id } => Some(ServerMessage::PeerLeft { peer_id }),
        RoomEvent::DataSync { from, data } => {
            let own = match current_peer_id {
                Some(id) => *id == from,
                None => false,
            };
            if own {
                None
            } else {
                Some(ServerMessage::Data { from, data })
            }
        },
        RoomEvent::DocumentUpdate { from, document } => {
            let own = match current_peer_id {
                Some(id) => *id == from,
                None => false,
            };
            if own {
                None
            } else {
                Some(ServerMessage::DocumentSync { document })
            }
        },
        RoomEvent::HostChanged { new_host_id } => None,
    }
}

/// The peer that joins as `peer_id` at `now`.
pub open spec fn joining_peer(
    peer_id: Seq<char>,
    is_host: bool,
    metadata: Option<serde_json::Value>,
    now: int,
) -> PeerInfoView {
    PeerInfoView { id: peer_id, joined_at: now, is_host, metadata }
}

/// Whether `replies` is what a peer is sent on joining the room that has
/// become `room`: the room's info with every peer listed once, then the
/// confirmation, then the snapshot if the room has one; nothing else.
pub open spec fn join_replies(
    room: RoomView,
    room_code: Seq<char>,
    peer_id: Seq<char>,
    replies: Seq<ServerMessageView>,
) -> bool {
    &&& replies.len() == if room.snapshot is Some {
        3int
    } else {
        2int
    }
    &&& replies[0] matches ServerMessageView::RoomInfo { room_code: code, host_id, peers }
    &&& code == room_code
    &&& host_id == room.host_id
    &&& lists_peers(peers, room.peers)
    &&& replies[1] == (ServerMessageView::Connected { peer_id, room_code })
    &&& room.snapshot matches Some(document) ==> replies[2] == (ServerMessageView::DocumentSync {
        document,
    })
}

/// Whether `room` is a room revived at `now` with `snapshot` that `peer` has
/// joined since.
pub open spec fn revived_and_joined(
    room: RoomView,
    peer: PeerInfoView,
    snapshot: Option<Seq<char>>,
    now: int,
) -> bool {
    &&& room == fresh_room(room.id, room.host_id, snapshot, now).with_peer(peer)
    &&& is_hyphenated_uuid(room.id)
    &&& is_generated_host_id(room.host_id)
}

/// Whether a join of `room_code` by `peer` went as it should: the room is
/// live afterwards, it is the room that was live before or a room revived
/// from `record`, with `peer` added; no other room has changed; the peer is
/// sent the join replies; `PeerJoined` was published after the subscription
/// was taken.
pub open spec fn joined(
    before: RoomMap,
    after: RoomMap,
    room_code: Seq<char>,
    peer: PeerInfoView,
    record: RevivalRecordView,
    now: int,
    step: SessionStepView,
) -> bool {
    &&& after.contains_key(room_code)
    &&& after == before.insert(room_code, after[room_code])
    &&& if before.contains_key(room_code) {
        after[room_code] == before[room_code].with_peer(peer)
    } else {
        revived_and_joined(after[room_code], peer, record.document, now)
    }
    &&& join_replies(after[room_code], room_code, peer.id, step.replies)
    &&& step.published == seq![RoomEventView::PeerJoined { peer }]
    &&& step.subscribed
    &&& step.persist is None
    &&& !step.close
}

/// The registry after the peer `peer_id` has left the room `room_code` at
/// `now`: the room without that peer, if the room is live; no other change.
pub open spec fn rooms_after_leave(
    before: RoomMap,
    room_code: Seq<char>,
    peer_id: Seq<char>,
    now: int,
) -> RoomMap {
    if before.contains_key(room_code) {
        before.insert(room_code, before[room_code].without_peer(peer_id, now))
    } else {
        before
    }
}

/// What is published when the peer `peer_id` leaves the room `room_code`.
pub open spec fn published_on_leave(
    before: RoomMap,
    room_code: Seq<char>,
    peer_id: Seq<char>,
) -> Seq<RoomEventView> {
    if before.contains_key(room_code) {
        seq![RoomEventView::PeerLeft { peer_id }]
    } else {
        Seq::empty()
    }
}

/// The registry after the peer has pushed `document` to the room
/// `room_code` at `now`.
pub open spec fn rooms_after_sync(
    before: RoomMap,
    room_code: Seq<char>,
    document: Seq<char>,
    now: int,
) -> RoomMap {
    if before.contains_key(room_code) {
        before.insert(room_code, before[room_code].with_snapshot(document, now))
    } else {
        before
    }
}

/// The step of a peer `peer_id` that pushes `document` to the room
/// `room_code`: the update is published and the snapshot is to be written
/// back; the peer itself is sent nothing. Nothing happens if the room is not
/// live.
pub open spec fn sync_step(
    before: RoomMap,
    room_code: Seq<char>,
    peer_id: Seq<char>,
    document: Seq<char>,
) -> SessionStepView {
    if before.contains_key(room_code) {
        SessionStepView {
            replies: Seq::empty(),
            published: seq![RoomEventView::DocumentUpdate { from: peer_id, document }],
            subscribed: false,
            persist: Some((room_code, document)),
            close: false,
        }
    } else {
        plain_step(Seq::empty(), Seq::empty())
    }
}

/// The step of a peer `peer_id` that broadcasts `data` in the room
/// `room_code`: the data is published; the peer itself is sent nothing.
pub open spec fn broadcast_step(
    before: RoomMap,
    room_code: Seq<char>,
    peer_id: Seq<char>,
    data: Seq<char>,
) -> SessionStepView {
    if before.contains_key(room_code) {
        plain_step(Seq::empty(), seq![RoomEventView::DataSync { from: peer_id, data }])
    } else {
        plain_step(Seq::empty(), Seq::empty())
    }
}

/// The step of a peer that asks for the document of the room `room_code`:
/// the peer is sent the snapshot, or the empty document if the room has
/// none.
pub open spec fn request_sync_step(before: RoomMap, room_code: Seq<char>) -> SessionStepView {
    if before.contains_key(room_code) {
        plain_step(
            seq![
                ServerMessageView::DocumentSync {
                    document: match before[room_code].snapshot {
                        Some(document) => document,
                        None => Seq::empty(),
                    },
                },
            ],
            Seq::empty(),
        )
    } else {
        plain_step(Seq::empty(), Seq::empty())
    }
}

/// The step of a peer that leaves: the departure is published and the
/// session is over.
pub open spec fn leave_step(
    before: RoomMap,
    room_code: Seq<char>,
    peer_id: Seq<char>,
) -> SessionStepView {
    SessionStepView {
        replies: Seq::empty(),
        published: published_on_leave(before, room_code, peer_id),
        subscribed: false,
        persist: None,
        close: true,
    }
}

/// What a result of a step stands for.
pub open spec fn result_view(
    result: Result<SessionStep, SessionError>,
) -> Result<SessionStepView, SessionError> {
    match result {
        Ok(step) => Ok(step@),
        Err(error) => Err(error),
    }
}

/// Whether a message was refused with `error` and nothing has changed.
pub open spec fn refused(
    session: SessionView,
    rooms: RoomMap,
    error: SessionError,
    session_after: SessionView,
    rooms_after: RoomMap,
    result: Result<SessionStepView, SessionError>,
) -> bool {
    &&& result == Err::<SessionStepView, SessionError>(error)
    &&& session_after == session
    &&& rooms_after == rooms
}

/// Whether a `Ping` was handled as the protocol asks: answered with `Pong`,
/// in every state, with no other effect.
pub open spec fn handled_ping(
    session: SessionView,
    rooms: RoomMap,
    session_after: SessionView,
    rooms_after: RoomMap,
    result: Result<SessionStepView, SessionError>,
) -> bool {
    &&& result == Ok::<SessionStepView, SessionError>(
        plain_step(seq![ServerMessageView::Pong], Seq::empty()),
    )
    &&& session_after == session
    &&& rooms_after == rooms
}

/// Whether a `Join` was handled as the protocol asks: refused from a
/// session that has joined already, refused for a room that is not live and
/// may not be revived, and carried out otherwise.
pub open spec fn handled_join(
    session: SessionView,
    rooms: RoomMap,
    room_code: Seq<char>,
    peer: PeerInfoView,
    record: RevivalRecordView,
    now: int,
    session_after: SessionView,
    rooms_after: RoomMap,
    result: Result<SessionStepView, SessionError>,
) -> bool {
    if session.is_bound() {
        refused(session, rooms, SessionError::AlreadyJoined, session_after, rooms_after, result)
    } else if !rooms.contains_key(room_code) && !revival_allowed(room_code, record) {
        refused(session, rooms, SessionError::RoomNotFound, session_after, rooms_after, result)
    } else {
        &&& result matches Ok(step)
        &&& joined(rooms, rooms_after, room_code, peer, record, now, step)
        &&& session_after == bound_to(room_code, peer.id)
    }
}

/// Whether a `Leave` was handled as the protocol asks.
pub open spec fn handled_leave(
    session: SessionView,
    rooms: RoomMap,
    now: int,
    session_after: SessionView,
    rooms_after: RoomMap,
    result: Result<SessionStepView, SessionError>,
) -> bool {
    match (session.current_room, session.current_peer_id) {
        (Some(room_code), Some(peer_id)) => {
            &&& result == Ok::<SessionStepView, SessionError>(leave_step(rooms, room_code, peer_id))
            &&& session_after == unbound()
            &&& rooms_after == rooms_after_leave(rooms, room_code, peer_id, now)
        },
        _ => refused(session, rooms, SessionError::NotJoined, session_after, rooms_after, result),
    }
}

/// Whether a `Broadcast` of `data` was handled as the protocol asks.
pub open spec fn handled_broadcast(
    session: SessionView,
    rooms: RoomMap,
    data: Seq<char>,
    session_after: SessionView,
    rooms_after: RoomMap,
    result: Result<SessionStepView, SessionError>,
) -> bool {
    match (session.current_room, session.current_peer_id) {
        (Some(room_code), Some(peer_id)) => {
            &&& result == Ok::<SessionStepView, SessionError>(
                broadcast_step(rooms, room_code, peer_id, data),
            )
            &&& session_after == session
            &&& rooms_after == rooms
        },
        _ => refused(session, rooms, SessionError::NotJoined, session_after, rooms_after, result),
    }
}

/// Whether a `SyncDocument` of `document` was handled as the protocol asks.
pub open spec fn handled_sync(
    session: SessionView,
    rooms: RoomMap,
    document: Seq<char>,
    now: int,
    session_after: SessionView,
    rooms_after: RoomMap,
    result: Result<SessionStepView, SessionError>,
) -> bool {
    match (session.current_room, session.current_peer_id) {
        (Some(room_code), Some(peer_id)) => {
            &&& result == Ok::<SessionStepView, SessionError>(
                sync_step(rooms, room_code, peer_id, document),
            )
            &&& session_after == session
            &&& rooms_after == rooms_after_sync(rooms, room_code, document, now)
        },
        _ => refused(session, rooms, SessionError::NotJoined, session_after, rooms_after, result),
    }
}

/// Whether a `RequestSync` was handled as the protocol asks.
pub open spec fn handled_request_sync(
    session: SessionView,
    rooms: RoomMap,
    session_after: SessionView,
    rooms_after: RoomMap,
    result: Result<SessionStepView, SessionError>,
) -> bool {
    match (session.current_room, session.current_peer_id) {
        (Some(room_code), Some(peer_id)) => {
            &&& result == Ok::<SessionStepView, SessionError>(request_sync_step(rooms, room_code))
            &&& session_after == session
            &&& rooms_after == rooms
        },
        _ => refused(session, rooms, SessionError::NotJoined, session_after, rooms_after, result),
    }
}

/// Whether a message of a peer was handled as the protocol asks.
///
/// `Ping` is answered with `Pong` in every state. An unbound session accepts
/// a `Join` and nothing else; a bound session accepts everything but a
/// `Join`. A refused message changes nothing.
pub open spec fn handled(
    session: SessionView,
    rooms: RoomMap,
    msg: ClientMessageView,
    record: RevivalRecordView,
    now: int,
    session_after: SessionView,
    rooms_after: RoomMap,
    result: Result<SessionStepView, SessionError>,
) -> bool {
    match msg {
        ClientMessageView::Ping => handled_ping(session, rooms, session_after, rooms_after, result),
        ClientMessageView::Join { room_code, peer_id, is_host, metadata } => handled_join(
            session,
            rooms,
            room_code,
            joining_peer(peer_id, is_host, metadata, now),
            record,
            now,
            session_after,
            rooms_after,
            result,
        ),
        ClientMessageView::Leave => handled_leave(
            session,
            rooms,
            now,
            session_after,
            rooms_after,
            result,
        ),
        ClientMessageView::Broadcast { data } => handled_broadcast(
            session,
            rooms,
            data,
            session_after,
            rooms_after,
            result,
        ),
        ClientMessageView::SyncDocument { document } => handled_sync(
            session,
            rooms,
            document,
            now,
            session_after,
            rooms_after,
            result,
        ),
        ClientMessageView::RequestSync => handled_request_sync(
            session,
            rooms,
            session_after,
            rooms_after,
            result,
        ),
    }
}

impl Session {
    /// A session that has joined nothing.
    pub fn new() -> (session: Session)
        ensures
            session@ == unbound(),
            session@.wf(),
    {
        Session { current_room: None, current_peer_id: None }
    }

    /// Whether the session has joined a room.
    pub fn is_bound(&self) -> (bound: bool)
        ensures
            bound == self@.is_bound(),
    {
        self.current_room.is_some() && self.current_peer_id.is_some()
    }
}

fn step_of(replies: Vec<ServerMessage>, published: Vec<RoomEvent>) -> (step: SessionStep)
    ensures
        step@ == plain_step(message_views(replies@), event_views(published@)),
{
    SessionStep { replies, published, subscription: None, persist: None, close: false }
}

/// Removes the peer `peer_id` from the room that is live under `room_code`,
/// publishes its departure, and marks the room idle since `now` if no peer
/// is left. Nothing happens if no room is live under the code. Returns the
/// events published.
pub fn leave_room(registry: &mut RoomRegistry, room_code: &str, peer_id: &str, now: i64) -> (published:
    Vec<RoomEvent>)
    requires
        old(registry).wf(),
    ensures
        final(registry).wf(),
        final(registry)@ == rooms_after_leave(old(registry)@, room_code@, peer_id@, now as int),
        event_views(published@) == published_on_leave(old(registry)@, room_code@, peer_id@),
{
    let mut published: Vec<RoomEvent> = Vec::new();
    match registry.take(room_code) {
        Some(mut room) => {
            let event = room.remove_peer(peer_id, now);
            registry.put(room_code, room);
            published.push(event);
            proof {
                assert(final(registry)@ =~= rooms_after_leave(
                    old(registry)@,
                    room_code@,
                    peer_id@,
                    now as int,
                ));
                assert(event_views(published@) =~= published_on_leave(
                    old(registry)@,
                    room_code@,
                    peer_id@,
                ));
            }
        },
        None => {
            proof {
                assert(event_views(published@) =~= published_on_leave(
                    old(registry)@,
                    room_code@,
                    peer_id@,
                ));
            }
        },
    }
    published
}

/// Handles a `Join`: makes sure the room is live, reviving it from `record`
/// where that is needed and allowed, subscribes to its bus, adds the peer,
/// publishes `PeerJoined`, and binds the session.
pub fn join_room(
    session: &mut Session,
    registry: &mut RoomRegistry,
    room_code: &str,
    peer_id: &str,
    is_host: bool,
    metadata: &Option<serde_json::Value>,
    record: &RevivalRecord,
    now: i64,
) -> (result: Result<SessionStep, SessionError>)
    requires
        old(session)@.wf(),
        old(registry).wf(),
    ensures
        final(session)@.wf(),
        final(registry).wf(),
        handled_join(
            old(session)@,
            old(registry)@,
            room_code@,
            joining_peer(peer_id@, is_host, *metadata, now as int),
            record@,
            now as int,
            final(session)@,
            final(registry)@,
            result_view(result),
        ),
{
    if session.is_bound() {
        return Err(SessionError::AlreadyJoined);
    }
    if ensure_room_exists(registry, room_code, record, now).is_err() {
        return Err(SessionError::RoomNotFound);
    }
    let ghost present = registry@;
    match registry.take(room_code) {
        Some(mut room) => {
            let subscription = room.subscribe();
            let peer = PeerInfo {
                id: peer_id.to_string(),
                joined_at: now,
                is_host,
                metadata: match metadata {
                    Some(value) => Some(value.clone()),
                    None => None,
                },
            };
            let ghost peer_view = peer@;
            assert(peer_view == joining_peer(peer_id@, is_host, *metadata, now as int));
            let event = room.add_peer(peer);
            let peers = room.peer_list();
            let mut replies: Vec<ServerMessage> = Vec::new();
            replies.push(
                ServerMessage::RoomInfo {
                    room_code: room_code.to_string(),
                    host_id: room.host_id.clone(),
                    peers,
                },
            );
            replies.push(
                ServerMessage::Connected {
                    peer_id: peer_id.to_string(),
                    room_code: room_code.to_string(),
                },
            );
            match &room.document_state {
                Some(document) => {
                    replies.push(ServerMessage::DocumentSync { document: document.clone() });
                },
                None => {},
            }
            let ghost room_view = room@;
            registry.put(room_code, room);
            let mut published: Vec<RoomEvent> = Vec::new();
            published.push(event);
            session.current_room = Some(room_code.to_string());
            session.current_peer_id = Some(peer_id.to_string());
            let step = SessionStep {
                replies,
                published,
                subscription: Some(subscription),
                persist: None,
                close: false,
            };
            proof {
                let before = old(registry)@;
                let after = final(registry)@;
                assert(after[room_code@] == room_view);
                assert(after =~= before.insert(room_code@, after[room_code@]));
                assert(room_view == present[room_code@].with_peer(peer_view));
                assert(step@.published =~= seq![RoomEventView::PeerJoined { peer: peer_view }]);
                assert(join_replies(room_view, room_code@, peer_view.id, step@.replies));
            }
            Ok(step)
        },
        None => Err(SessionError::RoomNotFound),
    }
}

/// Handles a `Ping`: the answer is `Pong`.
pub fn pong(session: &Session, registry: &RoomRegistry) -> (result: Result<SessionStep, SessionError>)
    ensures
        handled_ping(session@, registry@, session@, registry@, result_view(result)),
{
    let mut replies: Vec<ServerMessage> = Vec::new();
    replies.push(ServerMessage::Pong);
    let step = step_of(replies, Vec::new());
    proof {
        assert(step@.replies =~= seq![ServerMessageView::Pong]);
        assert(step@.published =~= Seq::empty());
    }
    Ok(step)
}

/// Handles a `Leave`: the peer leaves its room and the session is over.
pub fn leave(session: &mut Session, registry: &mut RoomRegistry, now: i64) -> (result: Result<
    SessionStep,
    SessionError,
>)
    requires
        old(session)@.wf(),
        old(registry).wf(),
    ensures
        final(session)@.wf(),
        final(registry).wf(),
        handled_leave(
            old(session)@,
            old(registry)@,
            now as int,
            final(session)@,
            final(registry)@,
            result_view(result),
        ),
{
    if !session.is_bound() {
        return Err(SessionError::NotJoined);
    }
    let room_code = session.current_room.take().unwrap();
    let peer_id = session.current_peer_id.take().unwrap();
    let published = leave_room(registry, room_code.as_str(), peer_id.as_str(), now);
    let step = SessionStep {
        replies: Vec::new(),
        published,
        subscription: None,
        persist: None,
        close: true,
    };
    proof {
        assert(step@.replies =~= Seq::empty());
    }
    Ok(step)
}

/// Handles a `Broadcast`: `data` is published in the peer's name.
pub fn broadcast(session: &Session, registry: &mut RoomRegistry, data: &str) -> (result: Result<
    SessionStep,
    SessionError,
>)
    requires
        session@.wf(),
        old(registry).wf(),
    ensures
        final(registry).wf(),
        handled_broadcast(
            session@,
            old(registry)@,
            data@,
            session@,
            final(registry)@,
            result_view(result),
        ),
{
    if !session.is_bound() {
        return Err(SessionError::NotJoined);
    }
    let room_code = session.current_room.as_ref().unwrap();
    let peer_id = session.current_peer_id.as_ref().unwrap();
    let mut published: Vec<RoomEvent> = Vec::new();
    match registry.take(room_code.as_str()) {
        Some(room) => {
            let event = room.broadcast(peer_id.as_str(), data);
            registry.put(room_code.as_str(), room);
            published.push(event);
            proof {
                assert(final(registry)@ =~= old(registry)@);
            }
        },
        None => {},
    }
    let step = step_of(Vec::new(), published);
    proof {
        assert(step@.replies =~= Seq::empty());
        assert(step@.published =~= broadcast_step(
            old(registry)@,
            room_code@,
            peer_id@,
            data@,
        ).published);
    }
    Ok(step)
}

/// Handles a `SyncDocument`: `document` becomes the room's snapshot, the
/// update is published in the peer's name, and the snapshot is to be written
/// back.
pub fn sync_document(session: &Session, registry: &mut RoomRegistry, document: &str, now: i64) -> (result:
    Result<SessionStep, SessionError>)
    requires
        session@.wf(),
        old(registry).wf(),
    ensures
        final(registry).wf(),
        handled_sync(
            session@,
            old(registry)@,
            document@,
            now as int,
            session@,
            final(registry)@,
            result_view(result),
        ),
{
    if !session.is_bound() {
        return Err(SessionError::NotJoined);
    }
    let room_code = session.current_room.as_ref().unwrap();
    let peer_id = session.current_peer_id.as_ref().unwrap();
    match registry.take(room_code.as_str()) {
        Some(mut room) => {
            let event = room.set_snapshot(peer_id.as_str(), document, now);
            registry.put(room_code.as_str(), room);
            let mut published: Vec<RoomEvent> = Vec::new();
            published.push(event);
            let step = SessionStep {
                replies: Vec::new(),
                published,
                subscription: None,
                persist: Some(
                    SnapshotWrite { room_code: room_code.clone(), document: document.to_string() },
                ),
                close: false,
            };
            proof {
                assert(step@.replies =~= Seq::empty());
                assert(step@.published =~= seq![
                    RoomEventView::DocumentUpdate { from: peer_id@, document: document@ },
                ]);
                assert(final(registry)@ =~= rooms_after_sync(
                    old(registry)@,
                    room_code@,
                    document@,
                    now as int,
                ));
            }
            Ok(step)
        },
        None => {
            let step = step_of(Vec::new(), Vec::new());
            proof {
                assert(step@.replies =~= Seq::empty());
                assert(step@.published =~= Seq::empty());
            }
            Ok(step)
        },
    }
}

/// Handles a `RequestSync`: the peer is sent the room's snapshot, or the
/// empty document if there is none.
pub fn request_sync(session: &Session, registry: &mut RoomRegistry) -> (result: Result<
    SessionStep,
    SessionError,
>)
    requires
        session@.wf(),
        old(registry).wf(),
    ensures
        final(registry).wf(),
        handled_request_sync(
            session@,
            old(registry)@,
            session@,
            final(registry)@,
            result_view(result),
        ),
{
    if !session.is_bound() {
        return Err(SessionError::NotJoined);
    }
    let room_code = session.current_room.as_ref().unwrap();
    let mut replies: Vec<ServerMessage> = Vec::new();
    match registry.take(room_code.as_str()) {
        Some(room) => {
            let document = match &room.document_state {
                Some(document) => document.clone(),
                None => String::new(),
            };
            registry.put(room_code.as_str(), room);
            replies.push(ServerMessage::DocumentSync { document });
            proof {
                assert(final(registry)@ =~= old(registry)@);
            }
        },
        None => {},
    }
    let step = step_of(replies, Vec::new());
    proof {
        assert(step@.published =~= Seq::empty());
        assert(step@.replies =~= request_sync_step(old(registry)@, room_code@).replies);
    }
    Ok(step)
}

/// Handles one message of a peer: changes the session and the registry as
/// the protocol asks, publishes the room's events, and returns what is to be
/// sent back. `record` is what persistence knows of the room code of a
/// `Join`; it is not read for another message, nor for a room that is live.
pub fn handle_client_message(
    session: &mut Session,
    registry: &mut RoomRegistry,
    msg: &ClientMessage,
    record: &RevivalRecord,
    now: i64,
) -> (result: Result<SessionStep, SessionError>)
    requires
        old(session)@.wf(),
        old(registry).wf(),
    ensures
        final(session)@.wf(),
        final(registry).wf(),
        handled(
            old(session)@,
            old(registry)@,
            msg@,
            record@,
            now as int,
            final(session)@,
            final(registry)@,
            result_view(result),
        ),
{
    match msg {
        ClientMessage::Ping => pong(session, registry),
        ClientMessage::Join { room_code, peer_id, is_host, metadata } => join_room(
            session,
            registry,
            room_code.as_str(),
            peer_id.as_str(),
            *is_host,
            metadata,
            record,
            now,
        ),
        ClientMessage::Leave => leave(session, registry, now),
        ClientMessage::Broadcast { data } => broadcast(session, registry, data.as_str()),
        ClientMessage::SyncDocument { document } => sync_document(
            session,
            registry,
            document.as_str(),
            now,
        ),
        ClientMessage::RequestSync => request_sync(session, registry),
    }
}

/// What reaches a session, from the peer's socket or from a bus.
#[derive(Debug, Clone, PartialEq)]
pub enum SessionInput {
    /// A text frame that holds a client message.
    Message(ClientMessage),
    /// A text frame that holds no client message; `reason` says why not.
    Malformed { reason: String },
    /// A frame that is neither text nor a close frame.
    OtherFrame,
    /// A close frame, a failure of the transport, or the end of the stream.
    Disconnected,
    /// An event from the room's bus.
    Bus(RoomEvent),
    /// An event from the process-wide bus.
    System(SystemEvent),
}

/// What a `SessionInput` stands for.
pub enum SessionInputView {
    Message(ClientMessageView),
    Malformed { reason: Seq<char> },
    OtherFrame,
    Disconnected,
    Bus(RoomEventView),
    Shutdown,
    OtherSystemEvent,
}

impl View for SessionInput {
    type V = SessionInputView;

    open spec fn view(&self) -> SessionInputView {
        match self {
            SessionInput::Message(msg) => SessionInputView::Message(msg@),
            SessionInput::Malformed { reason } => SessionInputView::Malformed {
                reason: reason@,
            },
            SessionInput::OtherFrame => SessionInputView::OtherFrame,
            SessionInput::Disconnected => SessionInputView::Disconnected,
            SessionInput::Bus(event) => SessionInputView::Bus(event@),
            SessionInput::System(event) => match event {
                SystemEvent::Shutdown => SessionInputView::Shutdown,
                _ => SessionInputView::OtherSystemEvent,
            },
        }
    }
}

/// What one turn of the session loop has led to: a step, and whether a
/// close frame is to be sent to the peer before the session ends.
#[derive(Debug)]
pub struct SocketTurn {
    pub step: SessionStep,
    pub send_close_frame: bool,
}

/// The registry after the session has been cut off at `now`.
pub open spec fn rooms_after_disconnect(session: SessionView, rooms: RoomMap, now: int) -> RoomMap {
    match (session.current_room, session.current_peer_id) {
        (Some(room_code), Some(peer_id)) => rooms_after_leave(rooms, room_code, peer_id, now),
        _ => rooms,
    }
}

/// What is published when the session is cut off.
pub open spec fn published_on_disconnect(
    session: SessionView,
    rooms: RoomMap,
) -> Seq<RoomEventView> {
    match (session.current_room, session.current_peer_id) {
        (Some(room_code), Some(peer_id)) => published_on_leave(rooms, room_code, peer_id),
        _ => Seq::empty(),
    }
}

/// The step that ends a session: the departure is published, if the session
/// had joined a room.
pub open spec fn final_step(session: SessionView, rooms: RoomMap) -> SessionStepView {
    SessionStepView {
        replies: Seq::empty(),
        published: published_on_disconnect(session, rooms),
        subscribed: false,
        persist: None,
        close: true,
    }
}

/// The text sent to a peer whose frame held no client message.
pub open spec fn malformed_text(reason: Seq<char>) -> Seq<char> {
    "Invalid message format: "@ + reason
}

/// Whether a message was refused with `error`, nothing has changed, and the
/// peer is told why.
pub open spec fn refusal_answered(
    session: SessionView,
    rooms: RoomMap,
    msg: ClientMessageView,
    record: RevivalRecordView,
    now: int,
    session_after: SessionView,
    rooms_after: RoomMap,
    step: SessionStepView,
    error: SessionError,
) -> bool {
    &&& handled(
        session,
        rooms,
        msg,
        record,
        now,
        session_after,
        rooms_after,
        Err::<SessionStepView, SessionError>(error),
    )
    &&& step == plain_step(
        seq![ServerMessageView::Error { message: session_error_text(error) }],
        Seq::empty(),
    )
}

/// Whether one turn of the session loop went as it should.
///
/// A message is handled as the protocol asks, and a refusal is answered
/// with an `Error` while the session goes on. A malformed frame is answered
/// with an `Error`. Other frames are ignored. A bus event is translated for
/// this peer. On disconnection and on shutdown the peer leaves its room and
/// the session ends; on shutdown the peer is sent a close frame first.
pub open spec fn turn_taken(
    session: SessionView,
    rooms: RoomMap,
    input: SessionInputView,
    record: RevivalRecordView,
    now: int,
    session_after: SessionView,
    rooms_after: RoomMap,
    step: SessionStepView,
    send_close_frame: bool,
) -> bool {
    match input {
        SessionInputView::Message(msg) => {
            &&& !send_close_frame
            &&& {
                ||| handled(
                    session,
                    rooms,
                    msg,
                    record,
                    now,
                    session_after,
                    rooms_after,
                    Ok::<SessionStepView, SessionError>(step),
                )
                ||| refusal_answered(
                    session,
                    rooms,
                    msg,
                    record,
                    now,
                    session_after,
                    rooms_after,
                    step,
                    SessionError::NotJoined,
                )
                ||| refusal_answered(
                    session,
                    rooms,
                    msg,
                    record,
                    now,
                    session_after,
                    rooms_after,
                    step,
                    SessionError::AlreadyJoined,
                )
                ||| refusal_answered(
                    session,
                    rooms,
                    msg,
                    record,
                    now,
                    session_after,
                    rooms_after,
                    step,
                    SessionError::RoomNotFound,
                )
            }
        },
        SessionInputView::Malformed { reason } => {
            &&& step == plain_step(
                seq![ServerMessageView::Error { message: malformed_text(reason) }],
                Seq::empty(),
            )
            &&& !send_close_frame
            &&& session_after == session
            &&& rooms_after == rooms
        },
        SessionInputView::OtherFrame | SessionInputView::OtherSystemEvent => {
            &&& step == plain_step(Seq::empty(), Seq::empty())
            &&& !send_close_frame
            &&& session_after == session
            &&& rooms_after == rooms
        },
        SessionInputView::Bus(event) => {
            &&& step == plain_step(
                match forwarded(event, session.current_peer_id) {
                    Some(message) => seq![message],
                    None => Seq::empty(),
                },
                Seq::empty(),
            )
            &&& !send_close_frame
            &&& session_after == session
            &&& rooms_after == rooms
        },
        SessionInputView::Disconnected => {
            &&& step == final_step(session, rooms)
            &&& !send_close_frame
            &&& session_after == unbound()
            &&& rooms_after == rooms_after_disconnect(session, rooms, now)
        },
        SessionInputView::Shutdown => {
            &&& step == final_step(session, rooms)
            &&& send_close_frame
            &&& session_after == unbound()
            &&& rooms_after == rooms_after_disconnect(session, rooms, now)
        },
    }
}

/// Ends the session: the peer leaves the room it had joined, if any, and the
/// session is unbound. Returns the events published.
pub fn disconnect(session: &mut Session, registry: &mut RoomRegistry, now: i64) -> (published: Vec<
    RoomEvent,
>)
    requires
        old(session)@.wf(),
        old(registry).wf(),
    ensures
        final(session)@ == unbound(),
        final(registry).wf(),
        final(registry)@ == rooms_after_disconnect(old(session)@, old(registry)@, now as int),
        event_views(published@) == published_on_disconnect(old(session)@, old(registry)@),
{
    if session.is_bound() {
        let room_code = session.current_room.take().unwrap();
        let peer_id = session.current_peer_id.take().unwrap();
        leave_room(registry, room_code.as_str(), peer_id.as_str(), now)
    } else {
        session.current_room = None;
        session.current_peer_id = None;
        let published: Vec<RoomEvent> = Vec::new();
        proof {
            assert(event_views(published@) =~= Seq::empty());
        }
        published
    }
}

fn error_reply(message: String) -> (step: SessionStep)
    ensures
        step@ == plain_step(seq![ServerMessageView::Error { message: message@ }], Seq::empty()),
{
    let mut replies: Vec<ServerMessage> = Vec::new();
    replies.push(ServerMessage::Error { message });
    let step = step_of(replies, Vec::new());
    proof {
        assert(step@.replies =~= seq![ServerMessageView::Error { message: message@ }]);
        assert(step@.published =~= Seq::empty());
    }
    step
}

/// Takes one turn of the session loop on `input`. When the step returned
/// says that the session is over, the peer has left its room already.
pub fn handle_socket(
    session: &mut Session,
    registry: &mut RoomRegistry,
    input: SessionInput,
    record: &RevivalRecord,
    now: i64,
) -> (turn: SocketTurn)
    requires
        old(session)@.wf(),
        old(registry).wf(),
    ensures
        final(session)@.wf(),
        final(registry).wf(),
        turn_taken(
            old(session)@,
            old(registry)@,
            input@,
            record@,
            now as int,
            final(session)@,
            final(registry)@,
            turn.step@,
            turn.send_close_frame,
        ),
{
    match input {
        SessionInput::Message(msg) => {
            match handle_client_message(session, registry, &msg, record, now) {
                Ok(step) => SocketTurn { step, send_close_frame: false },
                Err(error) => SocketTurn {
                    step: error_reply(error.message()),
                    send_close_frame: false,
                },
            }
        },
        SessionInput::Malformed { reason } => {
            let mut message = "Invalid message format: ".to_string();
            message.append(reason.as_str());
            SocketTurn { step: error_reply(message), send_close_frame: false }
        },
        SessionInput::OtherFrame => {
            let step = step_of(Vec::new(), Vec::new());
            proof {
                assert(step@.replies =~= Seq::empty());
                assert(step@.published =~= Seq::empty());
            }
            SocketTurn { step, send_close_frame: false }
        },
        SessionInput::Disconnected => {
            let published = disconnect(session, registry, now);
            let step = SessionStep {
                replies: Vec::new(),
                published,
                subscription: None,
                persist: None,
                close: true,
            };
            proof {
                assert(step@.replies =~= Seq::empty());
            }
            SocketTurn { step, send_close_frame: false }
        },
        SessionInput::Bus(event) => {
            let mut replies: Vec<ServerMessage> = Vec::new();
            match forward_room_event(event, session.current_peer_id.as_ref()) {
                Some(message) => {
                    replies.push(message);
                },
                None => {},
            }
            let step = step_of(replies, Vec::new());
            proof {
                assert(step@.published =~= Seq::empty());
                assert(step@.replies =~= match forwarded(event@, old(session)@.current_peer_id) {
                    Some(message) => seq![message],
                    None => Seq::empty(),
                });
            }
            SocketTurn { step, send_close_frame: false }
        },
        SessionInput::System(event) => {
            match event {
                SystemEvent::Shutdown => {
                    let published = disconnect(session, registry, now);
                    let step = SessionStep {
                        replies: Vec::new(),
                        published,
                        subscription: None,
                        persist: None,
                        close: true,
                    };
                    proof {
                        assert(step@.replies =~= Seq::empty());
                    }
                    SocketTurn { step, send_close_frame: true }
                },
                _ => {
                    let step = step_of(Vec::new(), Vec::new());
                    proof {
                        assert(step@.replies =~= Seq::empty());
                        assert(step@.published =~= Seq::empty());
                    }
                    SocketTurn { step, send_close_frame: false }
                },
            }
        },
    }
}

/// A peer is never sent its own data or document: pushing a document or
/// broadcasting data yields no reply, and what is published for it becomes
/// nothing for the session that sent it.
pub proof fn lemma_no_echo(rooms: RoomMap, room_code: Seq<char>, me: Seq<char>, payload: Seq<char>)
    ensures
        sync_step(rooms, room_code, me, payload).replies.len() == 0,
        forwarded_all(sync_step(rooms, room_code, me, payload).published, Some(me)).len() == 0,
        broadcast_step(rooms, room_code, me, payload).replies.len() == 0,
        forwarded_all(broadcast_step(rooms, room_code, me, payload).published, Some(me)).len()
            == 0,
        forwarded(RoomEventView::DocumentUpdate { from: me, document: payload }, Some(me)) is None,
        forwarded(RoomEventView::DataSync { from: me, data: payload }, Some(me)) is None,
{
    let synced = sync_step(rooms, room_code, me, payload).published;
    let sent = broadcast_step(rooms, room_code, me, payload).published;
    reveal_with_fuel(forwarded_all, 3);
    if rooms.contains_key(room_code) {
        assert(synced.drop_last() =~= Seq::empty());
        assert(sent.drop_last() =~= Seq::empty());
    }
}

/// The first `upto` events become a prefix of what all the events become.
proof fn lemma_forwarded_prefix(events: Seq<RoomEventView>, me: Option<Seq<char>>, upto: int)
    requires
        0 <= upto <= events.len(),
    ensures
        forwarded_all(events.take(upto), me).len() <= forwarded_all(events, me).len(),
        forwarded_all(events.take(upto), me) == forwarded_all(events, me).take(
            forwarded_all(events.take(upto), me).len() as int,
        ),
    decreases events.len() - upto,
{
    if upto == events.len() {
        assert(events.take(upto) =~= events);
        assert(forwarded_all(events, me).take(forwarded_all(events, me).len() as int)
            =~= forwarded_all(events, me));
    } else {
        lemma_forwarded_prefix(events, me, upto + 1);
        let longer = events.take(upto + 1);
        assert(longer.drop_last() =~= events.take(upto));
        let short_out = forwarded_all(events.take(upto), me);
        let longer_out = forwarded_all(longer, me);
        assert(short_out =~= longer_out.take(short_out.len() as int));
        assert(short_out =~= forwarded_all(events, me).take(short_out.len() as int));
    }
}

/// An event that is passed on stands in the output right behind what the
/// events before it have become.
proof fn lemma_forwarded_at(events: Seq<RoomEventView>, me: Option<Seq<char>>, at: int)
    requires
        0 <= at < events.len(),
        forwarded(events[at], me) is Some,
    ensures
        forwarded_all(events.take(at), me).len() < forwarded_all(events, me).len(),
        forwarded_all(events, me)[forwarded_all(events.take(at), me).len() as int] == forwarded(
            events[at],
            me,
        )->0,
        forwarded_all(events.take(at + 1), me).len() == forwarded_all(events.take(at), me).len()
            + 1,
{
    let upto = events.take(at + 1);
    assert(upto.drop_last() =~= events.take(at));
    assert(upto.last() == events[at]);
    lemma_forwarded_prefix(events, me, at + 1);
    let before = forwarded_all(events.take(at), me);
    let with = forwarded_all(upto, me);
    assert(with == before.push(forwarded(events[at], me)->0));
    assert(with[before.len() as int] == forwarded_all(events, me).take(
        with.len() as int,
    )[before.len() as int]);
}

/// The documents of another peer reach a session in the order in which they
/// were published: of two `DocumentUpdate` events on the bus that do not
/// come from the session's own peer, the earlier one is passed on, as a
/// `DocumentSync`, before the later one.
pub proof fn lemma_documents_arrive_in_order(
    events: Seq<RoomEventView>,
    me: Option<Seq<char>>,
    first: int,
    second: int,
) -> (at: (int, int))
    requires
        0 <= first < second < events.len(),
        events[first] is DocumentUpdate,
        events[second] is DocumentUpdate,
        me != Some(events[first]->DocumentUpdate_from),
        me != Some(events[second]->DocumentUpdate_from),
    ensures
        0 <= at.0 < at.1 < forwarded_all(events, me).len(),
        forwarded_all(events, me)[at.0] == (ServerMessageView::DocumentSync {
            document: events[first]->DocumentUpdate_document,
        }),
        forwarded_all(events, me)[at.1] == (ServerMessageView::DocumentSync {
            document: events[second]->DocumentUpdate_document,
        }),
{
    lemma_forwarded_at(events, me, first);
    lemma_forwarded_at(events, me, second);
    let until_second = events.take(second);
    assert(until_second.take(first + 1) =~= events.take(first + 1));
    lemma_forwarded_prefix(until_second, me, first + 1);
    (
        forwarded_all(events.take(first), me).len() as int,
        forwarded_all(events.take(second), me).len() as int,
    )
}

/// A peer that joins a room after a document was pushed to it is sent that
/// document right after the confirmation of its join.
pub proof fn lemma_late_joiner_is_sent_snapshot(
    rooms: RoomMap,
    room_code: Seq<char>,
    document: Seq<char>,
    pushed_at: int,
    joiner: PeerInfoView,
    record: RevivalRecordView,
    joined_at: int,
    rooms_after: RoomMap,
    step: SessionStepView,
)
    requires
        rooms.contains_key(room_code),
        joined(
            rooms_after_sync(rooms, room_code, document, pushed_at),
            rooms_after,
            room_code,
            joiner,
            record,
            joined_at,
            step,
        ),
    ensures
        step.replies.len() == 3,
        step.replies[0] is RoomInfo,
        step.replies[1] == (ServerMessageView::Connected { peer_id: joiner.id, room_code }),
        step.replies[2] == (ServerMessageView::DocumentSync { document }),
{
}

} // verus!
