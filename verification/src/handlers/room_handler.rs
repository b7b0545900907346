//! Creating a room and reporting on a room, as asked for over HTTP.

use crate::models::room::{
    fresh_room, lists_peers, peer_views, CreateRoomRequest, PeerInfo, PeerInfoView, Room,
};
use crate::services::room_service::{
    ensure_room_exists, generate_host_id, generate_room_code, is_generated_host_id,
    is_hyphenated_uuid, is_revived_room, may_revive, random_uuid, revival_allowed,
    room_code_alphabet, saved_document, RevivalRecord, RevivalRecordView, RoomError,
    ROOM_CODE_LENGTH,
};
use crate::state::{RoomMap, RoomRegistry};
use crate::text::opt_text;
use vstd::prelude::*;

verus! {

/// The address at which peers open their socket, as reported to the creator
/// of a room.
pub open spec fn websocket_url_text() -> Seq<char> {
    "ws://localhost:3001/ws"@
}

/// The address at which peers open their socket.
pub fn websocket_url() -> (url: String)
    ensures
        url@ == websocket_url_text(),
{
    "ws://localhost:3001/ws".to_string()
}

/// The room code a request to create a room is about: the code it asks
/// for, or a freshly generated one where it asks for none.
pub fn requested_room_code(request: &Option<CreateRoomRequest>) -> (code: String)
    ensures
        match *request {
            Some(CreateRoomRequest { desired_room_code: Some(desired), .. }) => code@ == desired@,
            _ => code@.len() == ROOM_CODE_LENGTH && forall|i: int|
                0 <= i < code@.len() ==> room_code_alphabet().contains(#[trigger] code@[i]),
        },
{
    match request {
        Some(CreateRoomRequest { desired_room_code: Some(desired), .. }) => desired.clone(),
        _ => generate_room_code(),
    }
}

/// The host id a request to create a room asks for, if it asks for one.
pub fn requested_host_id(request: &Option<CreateRoomRequest>) -> (host_id: Option<String>)
    ensures
        opt_text(host_id) == match *request {
            Some(CreateRoomRequest { desired_host_id: Some(desired), .. }) => Some(desired@),
            _ => None,
        },
{
    match request {
        Some(CreateRoomRequest { desired_host_id: Some(desired), .. }) => Some(desired.clone()),
        _ => None,
    }
}

/// The answer to a request to create a room. `restored` says that the room
/// was live already; `has_document` says whether the room holds a snapshot.
#[derive(Debug, Clone, PartialEq)]
pub struct CreatedRoom {
    pub room_code: String,
    pub room_id: String,
    pub host_id: String,
    pub restored: bool,
    pub has_document: bool,
}

/// What a `CreatedRoom` stands for.
pub struct CreatedRoomView {
    pub room_code: Seq<char>,
    pub room_id: Seq<char>,
    pub host_id: Seq<char>,
    pub restored: bool,
    pub has_document: bool,
}

impl View for CreatedRoom {
    type V = CreatedRoomView;

    open spec fn view(&self) -> CreatedRoomView {
        CreatedRoomView {
            room_code: self.room_code@,
            room_id: self.room_id@,
            host_id: self.host_id@,
            restored: self.restored,
            has_document: self.has_document,
        }
    }
}

/// Whether a request to create a room under `room_code` was served as it
/// should.
///
/// Where a room is live under the code, nothing changes and the answer names
/// that room, marked as restored. Where none is live and `record` does not
/// allow a room under the code, the request is refused and nothing changes.
/// Otherwise a fresh room enters the registry: born at `now`, without peers,
/// with the saved document as its snapshot, under a new id, hosted by
/// `desired_host_id` or by a made-up host.
pub open spec fn room_created(
    before: RoomMap,
    after: RoomMap,
    room_code: Seq<char>,
    desired_host_id: Option<Seq<char>>,
    record: RevivalRecordView,
    now: int,
    result: Result<CreatedRoomView, RoomError>,
) -> bool {
    if before.contains_key(room_code) {
        &&& after == before
        &&& result matches Ok(answer)
        &&& answer.room_code == room_code
        &&& answer.restored
        &&& answer.room_id == before[room_code].id
        &&& answer.host_id == before[room_code].host_id
        &&& answer.has_document == before[room_code].snapshot is Some
    } else if !revival_allowed(room_code, record) {
        &&& after == before
        &&& result == Err::<CreatedRoomView, RoomError>(RoomError::NotFound)
    } else {
        &&& after.contains_key(room_code)
        &&& after == before.insert(room_code, after[room_code])
        &&& result matches Ok(answer)
        &&& answer.room_code == room_code
        &&& after[room_code] == fresh_room(answer.room_id, answer.host_id, record.document, now)
        &&& !answer.restored
        &&& is_hyphenated_uuid(answer.room_id)
        &&& match desired_host_id {
            Some(host_id) => answer.host_id == host_id,
            None => is_generated_host_id(answer.host_id),
        }
        &&& answer.has_document == record.document is Some
    }
}

/// What the result of a request to create a room stands for.
pub open spec fn created_view(result: Result<CreatedRoom, RoomError>) -> Result<
    CreatedRoomView,
    RoomError,
> {
    match result {
        Ok(answer) => Ok(answer@),
        Err(error) => Err(error),
    }
}

/// Serves a request to create a room under `room_code`. `record` is what
/// persistence knows of the code; it is not read where the room is live.
pub fn create_room(
    registry: &mut RoomRegistry,
    room_code: &str,
    desired_host_id: Option<String>,
    record: &RevivalRecord,
    now: i64,
) -> (result: Result<CreatedRoom, RoomError>)
    requires
        old(registry).wf(),
    ensures
        final(registry).wf(),
        room_created(
            old(registry)@,
            final(registry)@,
            room_code@,
            opt_text(desired_host_id),
            record@,
            now as int,
            created_view(result),
        ),
{
    match registry.take(room_code) {
        Some(room) => {
            let answer = CreatedRoom {
                room_code: room_code.to_string(),
                room_id: room.id.clone(),
                host_id: room.host_id.clone(),
                restored: true,
                has_document: room.document_state.is_some(),
            };
            registry.put(room_code, room);
            proof {
                assert(final(registry)@ =~= old(registry)@);
            }
            Ok(answer)
        },
        None => {
            if !may_revive(room_code, record) {
                return Err(RoomError::NotFound);
            }
            let document = saved_document(record);
            let has_document = document.is_some();
            let room_id = random_uuid();
            let host_id = match desired_host_id {
                Some(host_id) => host_id,
                None => generate_host_id(),
            };
            let answer = CreatedRoom {
                room_code: room_code.to_string(),
                room_id: room_id.clone(),
                host_id: host_id.clone(),
                restored: false,
                has_document,
            };
            registry.put(room_code, Room::new(room_id, host_id, document, now));
            Ok(answer)
        },
    }
}

/// Asking twice for a room under one code yields one room: if the first
/// request is served, the second answer names the room that the first left
/// live, marked as restored, and the second request changes nothing.
pub proof fn lemma_create_room_is_idempotent(
    rooms: RoomMap,
    room_code: Seq<char>,
    first_host: Option<Seq<char>>,
    first_record: RevivalRecordView,
    first_now: int,
    rooms_between: RoomMap,
    first_answer: CreatedRoomView,
    second_host: Option<Seq<char>>,
    second_record: RevivalRecordView,
    second_now: int,
    rooms_after: RoomMap,
    second_result: Result<CreatedRoomView, RoomError>,
)
    requires
        room_created(
            rooms,
            rooms_between,
            room_code,
            first_host,
            first_record,
            first_now,
            Ok::<CreatedRoomView, RoomError>(first_answer),
        ),
        room_created(
            rooms_between,
            rooms_after,
            room_code,
            second_host,
            second_record,
            second_now,
            second_result,
        ),
    ensures
        second_result matches Ok(second_answer) && second_answer.restored
            && second_answer.room_id == first_answer.room_id && second_answer.host_id
            == first_answer.host_id,
        rooms_after == rooms_between,
{
}

/// What is reported of a room.
#[derive(Debug, Clone, PartialEq)]
pub struct RoomReport {
    pub room_code: String,
    pub host_id: String,
    pub peers: Vec<PeerInfo>,
    pub created_at: i64,
    pub peer_count: usize,
}

/// What a `RoomReport` stands for.
pub struct RoomReportView {
    pub room_code: Seq<char>,
    pub host_id: Seq<char>,
    pub peers: Seq<PeerInfoView>,
    pub created_at: int,
    pub peer_count: nat,
}

impl View for RoomReport {
    type V = RoomReportView;

    open spec fn view(&self) -> RoomReportView {
        RoomReportView {
            room_code: self.room_code@,
            host_id: self.host_id@,
            peers: peer_views(self.peers@),
            created_at: self.created_at as int,
            peer_count: self.peer_count as nat,
        }
    }
}

/// Whether a request for the info of the room `room_code` was served as it
/// should: a room that is not live is revived first, where `record` allows
/// it; the report names the room's host, its birth, and each of its peers
/// once. Without a live room and without revival there is no report and
/// nothing changes.
pub open spec fn room_reported(
    before: RoomMap,
    after: RoomMap,
    room_code: Seq<char>,
    record: RevivalRecordView,
    now: int,
    report: Option<RoomReportView>,
) -> bool {
    if before.contains_key(room_code) || revival_allowed(room_code, record) {
        &&& after.contains_key(room_code)
        &&& if before.contains_key(room_code) {
            after == before
        } else {
            &&& after == before.insert(room_code, after[room_code])
            &&& is_revived_room(after[room_code], record.document, now)
        }
        &&& report matches Some(info)
        &&& info.room_code == room_code
        &&& info.host_id == after[room_code].host_id
        &&& info.created_at == after[room_code].created_at
        &&& lists_peers(info.peers, after[room_code].peers)
        &&& info.peer_count == info.peers.len()
    } else {
        &&& report is None
        &&& after == before
    }
}

/// Serves a request for the info of the room `room_code`. `record` is what
/// persistence knows of the code; it is not read where the room is live.
pub fn get_room_info(
    registry: &mut RoomRegistry,
    room_code: &str,
    record: &RevivalRecord,
    now: i64,
) -> (report: Option<RoomReport>)
    requires
        old(registry).wf(),
    ensures
        final(registry).wf(),
        room_reported(
            old(registry)@,
            final(registry)@,
            room_code@,
            record@,
            now as int,
            match report {
                Some(info) => Some(info@),
                None => None,
            },
        ),
{
    let revived = ensure_room_exists(registry, room_code, record, now);
    let ghost present = registry@;
    match registry.take(room_code) {
        Some(room) => {
            let peers = room.peer_list();
            let peer_count = peers.len();
            let report = RoomReport {
                room_code: room_code.to_string(),
                host_id: room.host_id.clone(),
                peers,
                created_at: room.created_at,
                peer_count,
            };
            registry.put(room_code, room);
            proof {
                assert(final(registry)@ =~= present);
            }
            Some(report)
        },
        None => None,
    }
}

} // verus!
