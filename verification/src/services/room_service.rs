//! Room codes and ids, revival of a room from what persistence knows of it,
//! and the periodic eviction of idle rooms.

use crate::models::room::{fresh_room, Room, RoomView};
use crate::state::RoomRegistry;
use crate::text::{clone_opt_text, contains_char, opt_text, slice_text};
use vstd::prelude::*;
use vstd::string::*;

verus! {

/// The characters a generated room code is drawn from: capital letters and
/// digits without the glyphs that are easily mistaken for one another.
pub open spec fn room_code_alphabet() -> Seq<char> {
    "ABCDEFGHJKMNPQRSTUVWXYZ23456789"@
}

/// The number of characters of a generated room code.
pub const ROOM_CODE_LENGTH: usize = 6;

/// The seconds between two runs of the idle-room sweep.
pub const CLEANUP_INTERVAL_SECONDS: u64 = 60;

/// Whether `c` is a digit or a lower-case letter from `a` to `f`.
pub open spec fn is_lower_hex(c: char) -> bool {
    ('0' <= c && c <= '9') || ('a' <= c && c <= 'f')
}

/// Whether `text` has the hyphenated form of a UUID: 36 characters, hyphens
/// after the 8th, 12th, 16th and 20th hexadecimal digit, lower-case
/// hexadecimal digits elsewhere.
pub open spec fn is_hyphenated_uuid(text: Seq<char>) -> bool {
    &&& text.len() == 36
    &&& forall|i: int|
        0 <= i < 36 ==> if i == 8 || i == 13 || i == 18 || i == 23 {
            #[trigger] text[i] == '-'
        } else {
            is_lower_hex(text[i])
        }
}

/// `Rng::gen_range` of the rand crate on the thread's generator
/// (`rand::thread_rng`): some index below `bound`. The call panics on an
/// empty range, which `requires` leaves out. (The generator cannot be set
/// up where the system yields no randomness at all.)
#[verifier::external_body]
pub(crate) fn random_index(bound: usize) -> (index: usize)
    requires
        bound > 0,
    ensures
        index < bound,
{
    rand::Rng::gen_range(&mut rand::thread_rng(), 0..bound)
}

/// `Uuid::new_v4` of the uuid crate, written out by its `Display`: a random
/// UUID in hyphenated lower-case form. (It draws on the system's source of
/// randomness and cannot go on without one.)
#[verifier::external_body]
pub(crate) fn random_uuid() -> (text: String)
    ensures
        is_hyphenated_uuid(text@),
{
    uuid::Uuid::new_v4().to_string()
}

/// A fresh room code: `ROOM_CODE_LENGTH` characters, each drawn at random
/// from the room code alphabet.
pub fn generate_room_code() -> (code: String)
    ensures
        code@.len() == ROOM_CODE_LENGTH,
        forall|i: int| 0 <= i < code@.len() ==> room_code_alphabet().contains(#[trigger] code@[i]),
{
    let alphabet = "ABCDEFGHJKMNPQRSTUVWXYZ23456789";
    proof {
        reveal_strlit("ABCDEFGHJKMNPQRSTUVWXYZ23456789");
    }
    let mut code = String::new();
    let mut n: usize = 0;
    while n < ROOM_CODE_LENGTH
        invariant
            n <= ROOM_CODE_LENGTH,
            alphabet@ == room_code_alphabet(),
            alphabet@.len() == 31,
            code@.len() == n,
            forall|i: int|
                0 <= i < code@.len() ==> room_code_alphabet().contains(#[trigger] code@[i]),
        decreases ROOM_CODE_LENGTH - n,
    {
        let index = random_index(31);
        let ghost before = code@;
        code.append(alphabet.substring_char(index, index + 1));
        assert(code@ =~= before.push(alphabet@[index as int]));
        n += 1;
    }
    code
}

/// A short random id: the first eight hexadecimal digits of a random UUID.
pub fn generate_random_id() -> (id: String)
    ensures
        id@.len() == 8,
        forall|i: int| 0 <= i < 8 ==> is_lower_hex(#[trigger] id@[i]),
{
    let uuid = random_uuid();
    slice_text(uuid.as_str(), 0, 8)
}

/// Whether `id` is a host id as the server makes one up: `host_` followed by
/// eight hexadecimal digits.
pub open spec fn is_generated_host_id(id: Seq<char>) -> bool {
    &&& id.len() == 13
    &&& id.subrange(0, 5) == "host_"@
    &&& forall|i: int| 5 <= i < 13 ==> is_lower_hex(#[trigger] id[i])
}

/// A host id for a room whose creator named none.
pub fn generate_host_id() -> (id: String)
    ensures
        is_generated_host_id(id@),
{
    let mut id = "host_".to_string();
    let suffix = generate_random_id();
    proof {
        reveal_strlit("host_");
    }
    id.append(suffix.as_str());
    assert(id@.subrange(0, 5) == "host_"@);
    id
}

/// Whether a room code has the look of a UUID: 36 characters with a hyphen
/// among them. Such codes belong to workspaces.
pub open spec fn looks_like_uuid(code: Seq<char>) -> bool {
    code.len() == 36 && code.contains('-')
}

/// Whether `code` has the look of a UUID.
pub fn room_code_looks_like_uuid(code: &str) -> (looks: bool)
    ensures
        looks == looks_like_uuid(code@),
{
    code.unicode_len() == 36 && contains_char(code, '-')
}

/// What persistence holds of a room: the last document written back, if one
/// was.
#[derive(Debug, Clone, PartialEq)]
pub struct PersistedRoom {
    pub document: Option<String>,
}

/// What persistence knows of a room code: the room saved under it, if any,
/// and whether a workspace is bound to it.
#[derive(Debug, Clone, PartialEq)]
pub struct RevivalRecord {
    pub room: Option<PersistedRoom>,
    pub workspace_found: bool,
}

/// What a `RevivalRecord` stands for.
pub struct RevivalRecordView {
    pub room_found: bool,
    pub document: Option<Seq<char>>,
    pub workspace_found: bool,
}

impl View for RevivalRecord {
    type V = RevivalRecordView;

    open spec fn view(&self) -> RevivalRecordView {
        RevivalRecordView {
            room_found: self.room is Some,
            document: match self.room {
                Some(room) => match room.document {
                    Some(document) => Some(document@),
                    None => None,
                },
                None => None,
            },
            workspace_found: self.workspace_found,
        }
    }
}

impl RevivalRecord {
    /// The record for a room code that persistence knows nothing of.
    pub fn unknown() -> (record: RevivalRecord)
        ensures
            record@ == (RevivalRecordView {
                room_found: false,
                document: None,
                workspace_found: false,
            }),
    {
        RevivalRecord { room: None, workspace_found: false }
    }
}

/// Whether a room may be brought to life under `code`: a code with the look
/// of a UUID needs a saved room or a workspace behind it, any other code is
/// accepted.
pub open spec fn revival_allowed(code: Seq<char>, record: RevivalRecordView) -> bool {
    looks_like_uuid(code) ==> record.room_found || record.workspace_found
}

/// Whether a room may be brought to life under `room_code`.
pub fn may_revive(room_code: &str, record: &RevivalRecord) -> (allowed: bool)
    ensures
        allowed == revival_allowed(room_code@, record@),
{
    !room_code_looks_like_uuid(room_code) || record.room.is_some() || record.workspace_found
}

/// The document that persistence has saved for a room, if it has saved the
/// room and the room has one.
pub fn saved_document(record: &RevivalRecord) -> (document: Option<String>)
    ensures
        opt_text(document) == record@.document,
{
    match &record.room {
        Some(room) => clone_opt_text(&room.document),
        None => None,
    }
}

/// Whether `room` is a room as revival makes it: without peers, idle since
/// `now`, holding `snapshot`, with an id and a host id made up by the server.
pub open spec fn is_revived_room(room: RoomView, snapshot: Option<Seq<char>>, now: int) -> bool {
    &&& room == fresh_room(room.id, room.host_id, snapshot, now)
    &&& is_hyphenated_uuid(room.id)
    &&& is_generated_host_id(room.host_id)
}

/// Why a room could not be had.
#[derive(Debug, Clone, Copy, PartialEq, Eq)]
pub enum RoomError {
    /// No room is live under the code and none may be revived under it.
    NotFound,
}

impl RoomError {
    /// The text sent to the peer for this error.
    pub fn message(&self) -> (text: String)
        ensures
            text@ == "Room not found"@,
    {
        "Room not found".to_string()
    }
}

/// Makes sure a room is live under `room_code`.
///
/// A live room is left as it is. Otherwise `record` says what persistence
/// knows of the code: where revival is allowed, a fresh room enters the
/// registry with the saved document as its snapshot; where it is not, the
/// registry stays as it is and the call fails.
pub fn ensure_room_exists(
    registry: &mut RoomRegistry,
    room_code: &str,
    record: &RevivalRecord,
    now: i64,
) -> (result: Result<(), RoomError>)
    requires
        old(registry).wf(),
    ensures
        final(registry).wf(),
        result is Ok <==> old(registry)@.contains_key(room_code@) || revival_allowed(
            room_code@,
            record@,
        ),
        result is Err ==> final(registry)@ == old(registry)@,
        old(registry)@.contains_key(room_code@) ==> final(registry)@ == old(registry)@,
        result is Ok && !old(registry)@.contains_key(room_code@) ==> {
            &&& final(registry)@.contains_key(room_code@)
            &&& final(registry)@ == old(registry)@.insert(room_code@, final(registry)@[room_code@])
            &&& is_revived_room(final(registry)@[room_code@], record@.document, now as int)
        },
{
    if registry.contains(room_code) {
        return Ok(());
    }
    if !may_revive(room_code, record) {
        return Err(RoomError::NotFound);
    }
    let room = Room::new(random_uuid(), generate_host_id(), saved_document(record), now);
    registry.insert_if_absent(room_code, room);
    Ok(())
}

/// One run of the idle-room sweep: with a timeout of zero nothing is ever
/// evicted; otherwise every room that has been without peers for
/// `timeout_secs` seconds or more leaves the registry. Returns the codes of
/// the rooms evicted.
pub fn room_cleanup_tick(registry: &mut RoomRegistry, now: i64, timeout_secs: u64) -> (evicted:
    Vec<String>)
    requires
        old(registry).wf(),
    ensures
        final(registry).wf(),
        timeout_secs == 0 ==> final(registry)@ == old(registry)@ && evicted@.len() == 0,
        timeout_secs > 0 ==> final(registry)@ == crate::state::after_sweep(
            old(registry)@,
            now as int,
            timeout_secs as int,
        ),
        timeout_secs > 0 ==> forall|code: Seq<char>|
            crate::state::listed(evicted@, evicted@.len() as int, code) <==> old(
                registry,
            )@.contains_key(code) && old(registry)@[code].idle_beyond(
                now as int,
                timeout_secs as int,
            ),
{
    if timeout_secs == 0 {
        Vec::new()
    } else {
        registry.sweep(now, timeout_secs)
    }
}

/// A generated room code holds none of the glyphs that are easily mistaken
/// for one another, and the alphabet it is drawn from has 31 characters.
pub proof fn lemma_room_code_alphabet()
    ensures
        room_code_alphabet().len() == 31,
        !room_code_alphabet().contains('0'),
        !room_code_alphabet().contains('O'),
        !room_code_alphabet().contains('1'),
        !room_code_alphabet().contains('I'),
        !room_code_alphabet().contains('L'),
        forall|c: char|
            room_code_alphabet().contains(c) ==> ('A' <= c && c <= 'Z') || ('2' <= c && c <= '9'),
{
    reveal_strlit("ABCDEFGHJKMNPQRSTUVWXYZ23456789");
}

/// A room that has been without peers for the idle timeout or longer is
/// gone after the next sweep, and a room with a peer in it is never swept
/// away.
pub proof fn lemma_idle_rooms_are_evicted(
    rooms: crate::state::RoomMap,
    room_code: Seq<char>,
    now: int,
    timeout_secs: int,
)
    requires
        timeout_secs > 0,
        rooms.contains_key(room_code),
        rooms[room_code].wf(),
    ensures
        rooms[room_code].peers.dom().is_empty() && now - rooms[room_code].empty_since->0
            >= timeout_secs * 1000 ==> !crate::state::after_sweep(
            rooms,
            now,
            timeout_secs,
        ).contains_key(room_code),
        !rooms[room_code].peers.dom().is_empty() ==> crate::state::after_sweep(
            rooms,
            now,
            timeout_secs,
        ).contains_key(room_code),
{
}

/// The room code of a workspace has the look of a UUID, so a room is
/// revived under it only while persistence knows the code.
pub proof fn lemma_workspace_codes_need_a_record(room_code: Seq<char>, record: RevivalRecordView)
    requires
        is_hyphenated_uuid(room_code),
    ensures
        looks_like_uuid(room_code),
        revival_allowed(room_code, record) <==> record.room_found || record.workspace_found,
{
    assert(room_code[8] == '-');
}

} // verus!
