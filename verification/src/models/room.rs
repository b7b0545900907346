//! Rooms, their peers and the events a room publishes on its bus.
//!
//! A `Room` keeps its peers in a `DashMap` and owns the sending half of a
//! `tokio` broadcast channel. Both are reached through the small trusted
//! functions of this file; everything else is verified against them.


use crate::text::opt_text;
use vstd::prelude::*;

verus! {

/// A JSON value. The room runtime carries peer metadata through without
/// looking inside.
#[verifier::external_type_specification]
#[verifier::external_body]
pub struct ExJsonValue(serde_json::Value);

/// `DashMap` of the dashmap crate, a concurrent hash map.
#[verifier::external_type_specification]
#[verifier::external_body]
#[verifier::reject_recursive_types(K)]
#[verifier::reject_recursive_types(V)]
#[verifier::reject_recursive_types(S)]
pub struct ExDashMap<K, V, S>(dashmap::DashMap<K, V, S>);

/// The sending half of a `tokio` broadcast channel.
#[verifier::external_type_specification]
#[verifier::external_body]
#[verifier::reject_recursive_types(T)]
pub struct ExBusSender<T>(tokio::sync::broadcast::Sender<T>);

/// A subscription to a `tokio` broadcast channel.
#[verifier::external_type_specification]
#[verifier::external_body]
#[verifier::reject_recursive_types(T)]
pub struct ExBusReceiver<T>(tokio::sync::broadcast::Receiver<T>);

/// `Clone::clone` of `serde_json::Value`, which serde_json derives: the copy
/// is the same JSON value.
pub assume_specification[ <serde_json::Value as Clone>::clone ](
    value: &serde_json::Value,
) -> (copy: serde_json::Value)
    ensures
        copy == *value,
;

/// One participant of a room. `joined_at` is in milliseconds since the Unix
/// epoch, UTC.
#[derive(Debug, Clone, PartialEq)]
pub struct PeerInfo {
    pub id: String,
    pub joined_at: i64,
    pub is_host: bool,
    pub metadata: Option<serde_json::Value>,
}

/// What a `PeerInfo` stands for.
pub struct PeerInfoView {
    pub id: Seq<char>,
    pub joined_at: int,
    pub is_host: bool,
    pub metadata: Option<serde_json::Value>,
}

impl View for PeerInfo {
    type V = PeerInfoView;

    open spec fn view(&self) -> PeerInfoView {
        PeerInfoView {
            id: self.id@,
            joined_at: self.joined_at as int,
            is_host: self.is_host,
            metadata: self.metadata,
        }
    }
}

/// The views of a list of peers, in the same order.
pub open spec fn peer_views(list: Seq<PeerInfo>) -> Seq<PeerInfoView> {
    list.map_values(|p: PeerInfo| p@)
}

impl PeerInfo {
    /// A copy of this peer.
    pub fn duplicate(&self) -> (copy: PeerInfo)
        ensures
            copy@ == self@,
    {
        let metadata = match &self.metadata {
            Some(value) => Some(value.clone()),
            None => None,
        };
        PeerInfo {
            id: self.id.clone(),
            joined_at: self.joined_at,
            is_host: self.is_host,
            metadata,
        }
    }
}

/// What a room publishes on its bus.
#[derive(Debug, Clone, PartialEq)]
pub enum RoomEvent {
    PeerJoined { peer: PeerInfo },
    PeerLeft { peer_id: String },
    DataSync { from: String, data: String },
    DocumentUpdate { from: String, document: String },
    HostChanged { new_host_id: String },
}

/// What a `RoomEvent` stands for.
pub enum RoomEventView {
    PeerJoined { peer: PeerInfoView },
    PeerLeft { peer_id: Seq<char> },
    DataSync { from: Seq<char>, data: Seq<char> },
    DocumentUpdate { from: Seq<char>, document: Seq<char> },
    HostChanged { new_host_id: Seq<char> },
}

impl View for RoomEvent {
    type V = RoomEventView;

    open spec fn view(&self) -> RoomEventView {
        match self {
            RoomEvent::PeerJoined { peer } => RoomEventView::PeerJoined { peer: peer@ },
            RoomEvent::PeerLeft { peer_id } => RoomEventView::PeerLeft { peer_id: peer_id@ },
            RoomEvent::DataSync { from, data } => RoomEventView::DataSync {
                from: from@,
                data: data@,
            },
            RoomEvent::DocumentUpdate { from, document } => RoomEventView::DocumentUpdate {
                from: from@,
                document: document@,
            },
            RoomEvent::HostChanged { new_host_id } => RoomEventView::HostChanged {
                new_host_id: new_host_id@,
            },
        }
    }
}

/// The views of a list of events, in the same order.
pub open spec fn event_views(list: Seq<RoomEvent>) -> Seq<RoomEventView> {
    list.map_values(|e: RoomEvent| e@)
}

impl RoomEvent {
    /// A copy of this event.
    pub fn duplicate(&self) -> (copy: RoomEvent)
        ensures
            copy@ == self@,
    {
        match self {
            RoomEvent::PeerJoined { peer } => RoomEvent::PeerJoined { peer: peer.duplicate() },
            RoomEvent::PeerLeft { peer_id } => RoomEvent::PeerLeft { peer_id: peer_id.clone() },
            RoomEvent::DataSync { from, data } => RoomEvent::DataSync {
                from: from.clone(),
                data: data.clone(),
            },
            RoomEvent::DocumentUpdate { from, document } => RoomEvent::DocumentUpdate {
                from: from.clone(),
                document: document.clone(),
            },
            RoomEvent::HostChanged { new_host_id } => RoomEvent::HostChanged {
                new_host_id: new_host_id.clone(),
            },
        }
    }
}

/// The peers of a room, keyed by peer id.
pub type PeerMap = Map<Seq<char>, PeerInfoView>;

/// What a peer map holds: for each key, the peer stored under it.
pub uninterp spec fn peer_entries(peers: dashmap::DashMap<String, PeerInfo>) -> PeerMap;

/// `DashMap::new`: a map without entries.
#[verifier::external_body]
pub(crate) fn peers_new() -> (fresh: dashmap::DashMap<String, PeerInfo>)
    ensures
        peer_entries(fresh) == PeerMap::empty(),
{
    dashmap::DashMap::new()
}

/// `DashMap::insert`: stores `peer` under `key`, replacing what was stored
/// under that key before; the other entries stay.
#[verifier::external_body]
pub(crate) fn peers_insert(peers: &mut dashmap::DashMap<String, PeerInfo>, key: String, peer: PeerInfo)
    ensures
        peer_entries(*final(peers)) == peer_entries(*old(peers)).insert(key@, peer@),
{
    peers.insert(key, peer);
}

/// `DashMap::remove`: drops the entry under `key`, if there is one; the other
/// entries stay.
#[verifier::external_body]
pub(crate) fn peers_remove(peers: &mut dashmap::DashMap<String, PeerInfo>, key: &str)
    ensures
        peer_entries(*final(peers)) == peer_entries(*old(peers)).remove(key@),
{
    peers.remove(key);
}

/// `DashMap::is_empty`: whether the map holds no entry.
#[verifier::external_body]
pub(crate) fn peers_is_empty(peers: &dashmap::DashMap<String, PeerInfo>) -> (empty: bool)
    ensures
        empty == peer_entries(*peers).dom().is_empty(),
{
    peers.is_empty()
}

/// Whether `entries` holds each entry of `peers` exactly once: as many pairs
/// as the map has keys, each pair an entry of the map, no key twice.
pub open spec fn holds_each_peer_once(entries: Seq<(String, PeerInfo)>, peers: PeerMap) -> bool {
    &&& peers.dom().finite()
    &&& entries.len() == peers.dom().len()
    &&& forall|i: int|
        0 <= i < entries.len() ==> peers.contains_pair((#[trigger] entries[i]).0@, entries[i].1@)
    &&& forall|i: int, j: int|
        0 <= i < j < entries.len() ==> (#[trigger] entries[i]).0@ != (#[trigger] entries[j]).0@
}

/// `DashMap::iter`: walks every entry once, in no particular order. The
/// result holds a copy of each entry.
#[verifier::external_body]
pub(crate) fn peers_entries(peers: &dashmap::DashMap<String, PeerInfo>) -> (entries: Vec<
    (String, PeerInfo),
>)
    ensures
        holds_each_peer_once(entries@, peer_entries(*peers)),
{
    peers.iter().map(|entry| (entry.key().clone(), entry.value().clone())).collect()
}

/// `tokio::sync::broadcast::channel`: a new channel that keeps at most
/// `capacity` undelivered events per subscriber; the receiving half that
/// comes with it is dropped at once. The call panics on a capacity of zero
/// or above `usize::MAX / 2`, which `requires` leaves out.
#[verifier::external_body]
pub(crate) fn open_bus(capacity: usize) -> (tx: tokio::sync::broadcast::Sender<RoomEvent>)
    requires
        0 < capacity <= usize::MAX / 2,
{
    tokio::sync::broadcast::channel(capacity).0
}

/// `Sender::subscribe`: a new subscription, which sees the events sent after
/// this call. (tokio refuses more than `usize::MAX / 4` live subscriptions
/// of one channel, more than memory can hold.)
#[verifier::external_body]
pub(crate) fn subscribe_bus(tx: &tokio::sync::broadcast::Sender<RoomEvent>) -> (rx:
    tokio::sync::broadcast::Receiver<RoomEvent>)
{
    tx.subscribe()
}

/// `Sender::send`: hands `event` to every current subscriber, without
/// blocking. With no subscriber the event is dropped; that is not an error
/// here.
#[verifier::external_body]
pub(crate) fn publish(tx: &tokio::sync::broadcast::Sender<RoomEvent>, event: RoomEvent) {
    let _ = tx.send(event);
}

/// How many undelivered events a room's bus keeps for each subscriber.
pub const BUS_CAPACITY: usize = 256;

/// A live room. Times are in milliseconds since the Unix epoch, UTC.
#[derive(Debug)]
pub struct Room {
    pub id: String,
    pub host_id: String,
    pub created_at: i64,
    pub tx: tokio::sync::broadcast::Sender<RoomEvent>,
    pub peers: dashmap::DashMap<String, PeerInfo>,
    pub document_state: Option<String>,
    pub last_sync: i64,
    pub empty_since: Option<i64>,
}

/// What a `Room` stands for. The bus is not part of it.
pub struct RoomView {
    pub id: Seq<char>,
    pub host_id: Seq<char>,
    pub created_at: int,
    pub peers: PeerMap,
    pub snapshot: Option<Seq<char>>,
    pub last_sync: int,
    pub empty_since: Option<int>,
}

impl View for Room {
    type V = RoomView;

    open spec fn view(&self) -> RoomView {
        RoomView {
            id: self.id@,
            host_id: self.host_id@,
            created_at: self.created_at as int,
            peers: peer_entries(self.peers),
            snapshot: match self.document_state {
                Some(document) => Some(document@),
                None => None,
            },
            last_sync: self.last_sync as int,
            empty_since: match self.empty_since {
                Some(since) => Some(since as int),
                None => None,
            },
        }
    }
}

/// Whole seconds between two instants given in milliseconds, rounded
/// towards zero.
pub open spec fn whole_seconds_between(since: int, now: int) -> int {
    if now >= since {
        (now - since) / 1000
    } else {
        -((since - now) / 1000)
    }
}

/// The room as it is born: no peer, idle since its birth.
pub open spec fn fresh_room(
    id: Seq<char>,
    host_id: Seq<char>,
    snapshot: Option<Seq<char>>,
    now: int,
) -> RoomView {
    RoomView {
        id,
        host_id,
        created_at: now,
        peers: PeerMap::empty(),
        snapshot,
        last_sync: now,
        empty_since: Some(now),
    }
}

impl RoomView {
    /// The invariant of a room: the idle marker is set exactly while the room
    /// has no peer, every peer is stored under its own id, and a snapshot is
    /// never older than the room.
    pub open spec fn wf(self) -> bool {
        &&& self.peers.dom().finite()
        &&& (self.empty_since is Some <==> self.peers.dom().is_empty())
        &&& forall|k: Seq<char>| #[trigger] self.peers.contains_key(k) ==> self.peers[k].id == k
        &&& (self.snapshot is Some ==> self.last_sync >= self.created_at)
    }

    /// The room after `peer` has joined.
    pub open spec fn with_peer(self, peer: PeerInfoView) -> RoomView {
        RoomView { peers: self.peers.insert(peer.id, peer), empty_since: None, ..self }
    }

    /// The room after the peer `peer_id` has left at `now`.
    pub open spec fn without_peer(self, peer_id: Seq<char>, now: int) -> RoomView {
        let peers = self.peers.remove(peer_id);
        RoomView {
            peers,
            empty_since: if peers.dom().is_empty() {
                Some(now)
            } else {
                self.empty_since
            },
            ..self
        }
    }

    /// The room after `document` has become its snapshot at `now`.
    pub open spec fn with_snapshot(self, document: Seq<char>, now: int) -> RoomView {
        RoomView {
            snapshot: Some(document),
            last_sync: if now >= self.created_at {
                now
            } else {
                self.created_at
            },
            ..self
        }
    }

    /// Whether the room has been without peers for at least `timeout_secs`
    /// whole seconds at `now`.
    pub open spec fn idle_beyond(self, now: int, timeout_secs: int) -> bool {
        self.empty_since matches Some(since) && whole_seconds_between(since, now) >= timeout_secs
    }
}

/// The room invariant holds of a fresh room and is kept by every change a
/// room undergoes: at every instant the idle marker is set exactly while
/// the room has no peer. No change touches the room's id, its host or its
/// birth.
pub proof fn lemma_room_invariant_is_kept(
    room: RoomView,
    peer: PeerInfoView,
    peer_id: Seq<char>,
    document: Seq<char>,
    now: int,
)
    requires
        room.wf(),
    ensures
        fresh_room(room.id, room.host_id, room.snapshot, now).wf(),
        room.with_peer(peer).wf(),
        room.without_peer(peer_id, now).wf(),
        room.with_snapshot(document, now).wf(),
        room.empty_since is Some <==> room.peers.dom().is_empty(),
        room.with_peer(peer).host_id == room.host_id,
        room.without_peer(peer_id, now).host_id == room.host_id,
        room.with_snapshot(document, now).host_id == room.host_id,
        room.with_peer(peer).id == room.id && room.with_peer(peer).created_at == room.created_at,
        room.without_peer(peer_id, now).id == room.id && room.without_peer(
            peer_id,
            now,
        ).created_at == room.created_at,
        room.with_snapshot(document, now).id == room.id && room.with_snapshot(
            document,
            now,
        ).created_at == room.created_at,
{
    assert(room.with_peer(peer).peers.dom().contains(peer.id));
}

/// Whether `list` names every peer of `peers` exactly once.
pub open spec fn lists_peers(list: Seq<PeerInfoView>, peers: PeerMap) -> bool {
    &&& list.len() == peers.dom().len()
    &&& forall|i: int|
        0 <= i < list.len() ==> peers.contains_pair((#[trigger] list[i]).id, list[i])
    &&& forall|i: int, j: int|
        0 <= i < j < list.len() ==> (#[trigger] list[i]).id != (#[trigger] list[j]).id
}

impl Room {
    /// A room without peers, born at `now`, with a bus of its own.
    pub fn new(id: String, host_id: String, document_state: Option<String>, now: i64) -> (room:
        Room)
        ensures
            room@ == fresh_room(id@, host_id@, opt_text(document_state), now as int),
            room@.wf(),
    {
        Room {
            id,
            host_id,
            created_at: now,
            tx: open_bus(BUS_CAPACITY),
            peers: peers_new(),
            document_state,
            last_sync: now,
            empty_since: Some(now),
        }
    }

    /// A new subscription to the room's bus.
    pub(crate) fn subscribe(&self) -> (rx: tokio::sync::broadcast::Receiver<RoomEvent>) {
        subscribe_bus(&self.tx)
    }

    /// Adds `peer` to the room, replacing a peer of the same id, clears the
    /// idle marker and publishes `PeerJoined`. Returns the event published.
    pub fn add_peer(&mut self, peer: PeerInfo) -> (event: RoomEvent)
        requires
            old(self)@.wf(),
        ensures
            final(self)@ == old(self)@.with_peer(peer@),
            final(self)@.wf(),
            event@ == (RoomEventView::PeerJoined { peer: peer@ }),
    {
        self.empty_since = None;
        let key = peer.id.clone();
        let published = peer.duplicate();
        let recorded = peer.duplicate();
        peers_insert(&mut self.peers, key, peer);
        publish(&self.tx, RoomEvent::PeerJoined { peer: published });
        proof {
            let after = self@;
            assert(after.peers.dom().contains(recorded@.id));
            assert(!after.peers.dom().is_empty());
        }
        RoomEvent::PeerJoined { peer: recorded }
    }

    /// Removes the peer `peer_id`, publishes `PeerLeft`, and marks the room
    /// idle since `now` if no peer is left. Returns the event published.
    pub fn remove_peer(&mut self, peer_id: &str, now: i64) -> (event: RoomEvent)
        requires
            old(self)@.wf(),
        ensures
            final(self)@ == old(self)@.without_peer(peer_id@, now as int),
            final(self)@.wf(),
            event@ == (RoomEventView::PeerLeft { peer_id: peer_id@ }),
    {
        peers_remove(&mut self.peers, peer_id);
        publish(&self.tx, RoomEvent::PeerLeft { peer_id: peer_id.to_string() });
        if peers_is_empty(&self.peers) {
            self.empty_since = Some(now);
        }
        RoomEvent::PeerLeft { peer_id: peer_id.to_string() }
    }

    /// Makes `document` the room's snapshot and publishes `DocumentUpdate`
    /// in the name of `from`. Returns the event published.
    pub fn set_snapshot(&mut self, from: &str, document: &str, now: i64) -> (event: RoomEvent)
        requires
            old(self)@.wf(),
        ensures
            final(self)@ == old(self)@.with_snapshot(document@, now as int),
            final(self)@.wf(),
            event@ == (RoomEventView::DocumentUpdate { from: from@, document: document@ }),
    {
        self.document_state = Some(document.to_string());
        self.last_sync = if now >= self.created_at {
            now
        } else {
            self.created_at
        };
        publish(
            &self.tx,
            RoomEvent::DocumentUpdate { from: from.to_string(), document: document.to_string() },
        );
        RoomEvent::DocumentUpdate { from: from.to_string(), document: document.to_string() }
    }

    /// Publishes `DataSync` in the name of `from`; the room itself does not
    /// change. Returns the event published.
    pub fn broadcast(&self, from: &str, data: &str) -> (event: RoomEvent)
        ensures
            event@ == (RoomEventView::DataSync { from: from@, data: data@ }),
    {
        publish(&self.tx, RoomEvent::DataSync { from: from.to_string(), data: data.to_string() });
        RoomEvent::DataSync { from: from.to_string(), data: data.to_string() }
    }

    /// The peers of the room, each once, in no particular order.
    pub fn peer_list(&self) -> (list: Vec<PeerInfo>)
        requires
            self@.wf(),
        ensures
            lists_peers(peer_views(list@), self@.peers),
    {
        let mut entries = peers_entries(&self.peers);
        let ghost all = entries@;
        let mut list: Vec<PeerInfo> = Vec::new();
        let mut i: usize = 0;
        while i < entries.len()
            invariant
                i <= entries.len(),
                entries@ == all,
                list@.len() == i,
                forall|j: int| 0 <= j < i ==> (#[trigger] list@[j])@ == all[j].1@,
            decreases entries.len() - i,
        {
            list.push(entries[i].1.duplicate());
            i += 1;
        }
        proof {
            let views = peer_views(list@);
            assert forall|j: int| 0 <= j < views.len() implies self@.peers.contains_pair(
                (#[trigger] views[j]).id,
                views[j],
            ) by {
                assert(views[j] == list@[j]@);
                assert(self@.peers.contains_pair(all[j].0@, all[j].1@));
            }
            assert forall|j: int, k: int| 0 <= j < k < views.len() implies (#[trigger] views[j]).id
                != (#[trigger] views[k]).id by {
                assert(views[j] == list@[j]@);
                assert(views[k] == list@[k]@);
                assert(self@.peers.contains_pair(all[j].0@, all[j].1@));
                assert(self@.peers.contains_pair(all[k].0@, all[k].1@));
            }
        }
        list
    }

    /// Whether the room has been without peers for at least `timeout_secs`
    /// whole seconds at `now`.
    pub fn idle_beyond(&self, now: i64, timeout_secs: u64) -> (idle: bool)
        ensures
            idle == self@.idle_beyond(now as int, timeout_secs as int),
    {
        match self.empty_since {
            Some(since) => {
                let seconds: i128 = if now >= since {
                    (now as i128 - since as i128) / 1000
                } else {
                    -((since as i128 - now as i128) / 1000)
                };
                seconds >= timeout_secs as i128
            },
            None => false,
        }
    }
}

/// The body of a request to create a room.
pub struct CreateRoomRequest {
    pub desired_room_code: Option<String>,
    pub desired_host_id: Option<String>,
}

} // verus!
