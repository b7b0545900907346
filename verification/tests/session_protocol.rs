use sync_server::handlers::ws_handler::{
    disconnect, forward_room_event, handle_client_message, handle_socket, leave_room, Session,
    SessionError, SessionInput,
};
use sync_server::models::message::{ClientMessage, ServerMessage, SystemEvent};
use sync_server::models::room::{PeerInfo, RoomEvent};
use sync_server::services::room_service::{PersistedRoom, RevivalRecord};
use sync_server::state::RoomRegistry;

fn join(code: &str, peer: &str, is_host: bool) -> ClientMessage {
    ClientMessage::Join {
        room_code: code.to_string(),
        peer_id: peer.to_string(),
        is_host,
        metadata: None,
    }
}

fn sync(document: &str) -> ClientMessage {
    ClientMessage::SyncDocument { document: document.to_string() }
}

#[test]
fn two_peers_share_one_room() {
    let mut registry = RoomRegistry::new();
    let record = RevivalRecord::unknown();
    let mut alpha = Session::new();
    let mut beta = Session::new();

    // alpha joins and is sent the room's info, then the confirmation
    let step = handle_client_message(&mut alpha, &mut registry, &join("ABCD23", "a", true), &record, 1_000)
        .unwrap();
    assert_eq!(step.replies.len(), 2);
    match &step.replies[0] {
        ServerMessage::RoomInfo { room_code, host_id: _, peers } => {
            assert_eq!(room_code, "ABCD23");
            assert_eq!(peers.len(), 1);
            assert_eq!(peers[0].id, "a");
            assert!(peers[0].is_host);
            assert_eq!(peers[0].joined_at, 1_000);
        }
        other => panic!("unexpected first reply {:?}", other),
    }
    assert_eq!(
        step.replies[1],
        ServerMessage::Connected { peer_id: "a".to_string(), room_code: "ABCD23".to_string() }
    );
    assert!(!step.close);
    assert!(step.persist.is_none());
    let mut alpha_rx = step.subscription.expect("a join subscribes to the bus");
    // alpha's own join is on the bus behind its subscription
    match alpha_rx.try_recv().unwrap() {
        RoomEvent::PeerJoined { peer } => assert_eq!(peer.id, "a"),
        other => panic!("unexpected event {:?}", other),
    }

    // beta joins; alpha hears of it
    let step = handle_client_message(&mut beta, &mut registry, &join("ABCD23", "b", false), &record, 2_000)
        .unwrap();
    match &step.replies[0] {
        ServerMessage::RoomInfo { peers, .. } => {
            let mut ids: Vec<String> = peers.iter().map(|p| p.id.clone()).collect();
            ids.sort();
            assert_eq!(ids, vec!["a".to_string(), "b".to_string()]);
        }
        other => panic!("unexpected first reply {:?}", other),
    }
    let mut beta_rx = step.subscription.unwrap();
    let event = alpha_rx.try_recv().unwrap();
    match forward_room_event(event, alpha.current_peer_id.as_ref()) {
        Some(ServerMessage::PeerJoined { peer }) => {
            assert_eq!(peer.id, "b");
            assert!(!peer.is_host);
        }
        other => panic!("unexpected message {:?}", other),
    }
    // beta sees its own join first
    assert!(matches!(beta_rx.try_recv().unwrap(), RoomEvent::PeerJoined { .. }));

    // alpha pushes a document: beta is sent it, alpha is sent nothing
    let step =
        handle_client_message(&mut alpha, &mut registry, &sync("HELLO"), &record, 3_000).unwrap();
    assert!(step.replies.is_empty());
    assert_eq!(
        step.published,
        vec![RoomEvent::DocumentUpdate { from: "a".to_string(), document: "HELLO".to_string() }]
    );
    let write = step.persist.expect("a pushed document is written back");
    assert_eq!(write.room_code, "ABCD23");
    assert_eq!(write.document, "HELLO");
    let for_beta = forward_room_event(beta_rx.try_recv().unwrap(), beta.current_peer_id.as_ref());
    assert_eq!(for_beta, Some(ServerMessage::DocumentSync { document: "HELLO".to_string() }));
    let for_alpha = forward_room_event(alpha_rx.try_recv().unwrap(), alpha.current_peer_id.as_ref());
    assert_eq!(for_alpha, None);

    // beta disconnects; alpha hears of it
    let turn = handle_socket(&mut beta, &mut registry, SessionInput::Disconnected, &record, 4_000);
    assert!(turn.step.close);
    assert!(!turn.send_close_frame);
    assert_eq!(beta, Session::new());
    let for_alpha = forward_room_event(alpha_rx.try_recv().unwrap(), alpha.current_peer_id.as_ref());
    assert_eq!(for_alpha, Some(ServerMessage::PeerLeft { peer_id: "b".to_string() }));
    assert!(alpha_rx.try_recv().is_err());
}

#[test]
fn broadcast_before_join_is_refused_and_the_session_goes_on() {
    let mut registry = RoomRegistry::new();
    let record = RevivalRecord::unknown();
    let mut alpha = Session::new();
    let msg = ClientMessage::Broadcast { data: "x".to_string() };
    let refused = handle_client_message(&mut alpha, &mut registry, &msg, &record, 0);
    assert_eq!(refused.err(), Some(SessionError::NotJoined));

    let turn = handle_socket(&mut alpha, &mut registry, SessionInput::Message(msg), &record, 0);
    assert_eq!(turn.step.replies, vec![ServerMessage::Error { message: "not joined".to_string() }]);
    assert!(turn.step.published.is_empty());
    assert!(!turn.step.close);
    assert!(!turn.send_close_frame);
    assert_eq!(registry.len(), 0);
    assert!(!alpha.is_bound());
}

#[test]
fn an_unbound_session_accepts_only_join_and_ping() {
    let record = RevivalRecord::unknown();
    for msg in [
        ClientMessage::Leave,
        ClientMessage::Broadcast { data: "d".to_string() },
        sync("doc"),
        ClientMessage::RequestSync,
    ] {
        let mut registry = RoomRegistry::new();
        let mut session = Session::new();
        let result = handle_client_message(&mut session, &mut registry, &msg, &record, 5);
        assert_eq!(result.err(), Some(SessionError::NotJoined));
        assert_eq!(session, Session::new());
        assert_eq!(registry.len(), 0);
    }
    let mut registry = RoomRegistry::new();
    let mut session = Session::new();
    let step =
        handle_client_message(&mut session, &mut registry, &ClientMessage::Ping, &record, 5).unwrap();
    assert_eq!(step.replies, vec![ServerMessage::Pong]);
    assert!(step.published.is_empty());
    assert!(step.subscription.is_none());
    assert!(!step.close);
}

#[test]
fn ping_is_answered_in_a_joined_session_too() {
    let mut registry = RoomRegistry::new();
    let record = RevivalRecord::unknown();
    let mut session = Session::new();
    handle_client_message(&mut session, &mut registry, &join("PINGED", "p", false), &record, 1).unwrap();
    let step =
        handle_client_message(&mut session, &mut registry, &ClientMessage::Ping, &record, 2).unwrap();
    assert_eq!(step.replies, vec![ServerMessage::Pong]);
    assert!(session.is_bound());
}

#[test]
fn a_second_join_is_a_protocol_error() {
    let mut registry = RoomRegistry::new();
    let record = RevivalRecord::unknown();
    let mut session = Session::new();
    handle_client_message(&mut session, &mut registry, &join("FIRST1", "a", true), &record, 1).unwrap();
    let again = handle_client_message(&mut session, &mut registry, &join("OTHER2", "a", true), &record, 2);
    assert_eq!(again.err(), Some(SessionError::AlreadyJoined));
    assert_eq!(session.current_room.as_deref(), Some("FIRST1"));
    assert!(!registry.contains("OTHER2"));
    assert_eq!(registry.len(), 1);

    let turn = handle_socket(
        &mut session,
        &mut registry,
        SessionInput::Message(join("OTHER2", "a", true)),
        &record,
        3,
    );
    assert_eq!(
        turn.step.replies,
        vec![ServerMessage::Error { message: "already joined".to_string() }]
    );
    assert!(!turn.step.close);
}

#[test]
fn session_error_texts() {
    assert_eq!(SessionError::NotJoined.message(), "not joined");
    assert_eq!(SessionError::AlreadyJoined.message(), "already joined");
    assert_eq!(SessionError::RoomNotFound.message(), "Room not found");
}

#[test]
fn a_join_that_fails_revival_leaves_the_session_unbound() {
    let mut registry = RoomRegistry::new();
    let record = RevivalRecord::unknown();
    let mut session = Session::new();
    let uuid_code = "123e4567-e89b-12d3-a456-426614174000";
    let result = handle_client_message(&mut session, &mut registry, &join(uuid_code, "a", true), &record, 1);
    assert_eq!(result.err(), Some(SessionError::RoomNotFound));
    assert!(!session.is_bound());
    assert_eq!(registry.len(), 0);

    let turn = handle_socket(
        &mut session,
        &mut registry,
        SessionInput::Message(join(uuid_code, "a", true)),
        &record,
        1,
    );
    assert_eq!(
        turn.step.replies,
        vec![ServerMessage::Error { message: "Room not found".to_string() }]
    );
    assert!(!turn.step.close);
}

#[test]
fn revival_hands_the_saved_document_to_the_first_joiner() {
    let mut registry = RoomRegistry::new();
    let record = RevivalRecord {
        room: Some(PersistedRoom { document: Some("X".to_string()) }),
        workspace_found: false,
    };
    let mut alpha = Session::new();
    let step = handle_client_message(&mut alpha, &mut registry, &join("R1", "a", true), &record, 10).unwrap();
    assert_eq!(step.replies.len(), 3);
    assert!(matches!(step.replies[0], ServerMessage::RoomInfo { .. }));
    assert!(matches!(step.replies[1], ServerMessage::Connected { .. }));
    assert_eq!(step.replies[2], ServerMessage::DocumentSync { document: "X".to_string() });
}

#[test]
fn a_late_joiner_is_sent_the_snapshot_after_the_confirmation() {
    let mut registry = RoomRegistry::new();
    let record = RevivalRecord::unknown();
    let mut writer = Session::new();
    let mut late = Session::new();
    handle_client_message(&mut writer, &mut registry, &join("SNAP22", "A", true), &record, 1).unwrap();
    handle_client_message(&mut writer, &mut registry, &sync("v1"), &record, 2).unwrap();
    handle_client_message(&mut writer, &mut registry, &sync("v2"), &record, 3).unwrap();
    let step = handle_client_message(&mut late, &mut registry, &join("SNAP22", "B", false), &record, 4).unwrap();
    assert_eq!(step.replies.len(), 3);
    assert_eq!(
        step.replies[1],
        ServerMessage::Connected { peer_id: "B".to_string(), room_code: "SNAP22".to_string() }
    );
    assert_eq!(step.replies[2], ServerMessage::DocumentSync { document: "v2".to_string() });
}

#[test]
fn restart_keeps_the_document_through_persistence() {
    // before the restart: a document is pushed and handed to persistence
    let mut registry = RoomRegistry::new();
    let mut writer = Session::new();
    handle_client_message(&mut writer, &mut registry, &join("KEEP42", "a", true), &RevivalRecord::unknown(), 1)
        .unwrap();
    let step = handle_client_message(&mut writer, &mut registry, &sync("durable"), &RevivalRecord::unknown(), 2)
        .unwrap();
    let write = step.persist.unwrap();

    // after the restart: a new registry, and persistence answers with what was written
    let mut registry = RoomRegistry::new();
    let record = RevivalRecord {
        room: Some(PersistedRoom { document: Some(write.document.clone()) }),
        workspace_found: false,
    };
    let mut reader = Session::new();
    let step = handle_client_message(&mut reader, &mut registry, &join(&write.room_code, "b", false), &record, 3)
        .unwrap();
    assert_eq!(step.replies[2], ServerMessage::DocumentSync { document: "durable".to_string() });
}

#[test]
fn documents_of_one_peer_arrive_in_order() {
    let mut registry = RoomRegistry::new();
    let record = RevivalRecord::unknown();
    let mut writer = Session::new();
    let mut reader = Session::new();
    handle_client_message(&mut writer, &mut registry, &join("ORDER2", "w", true), &record, 1).unwrap();
    let mut rx = handle_client_message(&mut reader, &mut registry, &join("ORDER2", "r", false), &record, 2)
        .unwrap()
        .subscription
        .unwrap();
    for (n, document) in ["d1", "d2", "d3"].iter().enumerate() {
        handle_client_message(&mut writer, &mut registry, &sync(document), &record, 10 + n as i64).unwrap();
    }
    let mut seen = Vec::new();
    while let Ok(event) = rx.try_recv() {
        if let Some(ServerMessage::DocumentSync { document }) =
            forward_room_event(event, reader.current_peer_id.as_ref())
        {
            seen.push(document);
        }
    }
    assert_eq!(seen, vec!["d1".to_string(), "d2".to_string(), "d3".to_string()]);
}

#[test]
fn own_data_and_documents_are_not_echoed() {
    let me = "me".to_string();
    let other = "other".to_string();
    let data = RoomEvent::DataSync { from: "me".to_string(), data: "x".to_string() };
    let document = RoomEvent::DocumentUpdate { from: "me".to_string(), document: "y".to_string() };
    assert_eq!(forward_room_event(data.clone(), Some(&me)), None);
    assert_eq!(forward_room_event(document.clone(), Some(&me)), None);
    assert_eq!(
        forward_room_event(data.clone(), Some(&other)),
        Some(ServerMessage::Data { from: "me".to_string(), data: "x".to_string() })
    );
    assert_eq!(
        forward_room_event(document.clone(), Some(&other)),
        Some(ServerMessage::DocumentSync { document: "y".to_string() })
    );
    // a session that has joined nothing has no data of its own
    assert_eq!(
        forward_room_event(data, None),
        Some(ServerMessage::Data { from: "me".to_string(), data: "x".to_string() })
    );
    assert_eq!(
        forward_room_event(document, None),
        Some(ServerMessage::DocumentSync { document: "y".to_string() })
    );
}

#[test]
fn joins_and_departures_are_passed_on_and_host_changes_are_not() {
    let me = "me".to_string();
    let peer = PeerInfo { id: "me".to_string(), joined_at: 7, is_host: true, metadata: None };
    assert_eq!(
        forward_room_event(RoomEvent::PeerJoined { peer: peer.clone() }, Some(&me)),
        Some(ServerMessage::PeerJoined { peer })
    );
    assert_eq!(
        forward_room_event(RoomEvent::PeerLeft { peer_id: "me".to_string() }, Some(&me)),
        Some(ServerMessage::PeerLeft { peer_id: "me".to_string() })
    );
    assert_eq!(
        forward_room_event(RoomEvent::HostChanged { new_host_id: "x".to_string() }, Some(&me)),
        None
    );
}

#[test]
fn broadcast_reaches_the_others_only() {
    let mut registry = RoomRegistry::new();
    let record = RevivalRecord::unknown();
    let mut alpha = Session::new();
    let mut beta = Session::new();
    let mut alpha_rx = handle_client_message(&mut alpha, &mut registry, &join("CAST22", "a", true), &record, 1)
        .unwrap()
        .subscription
        .unwrap();
    let mut beta_rx = handle_client_message(&mut beta, &mut registry, &join("CAST22", "b", false), &record, 2)
        .unwrap()
        .subscription
        .unwrap();
    let step = handle_client_message(
        &mut alpha,
        &mut registry,
        &ClientMessage::Broadcast { data: "payload".to_string() },
        &record,
        3,
    )
    .unwrap();
    assert!(step.replies.is_empty());
    assert!(step.persist.is_none());
    assert_eq!(
        step.published,
        vec![RoomEvent::DataSync { from: "a".to_string(), data: "payload".to_string() }]
    );
    let mut for_alpha = Vec::new();
    while let Ok(event) = alpha_rx.try_recv() {
        for_alpha.extend(forward_room_event(event, alpha.current_peer_id.as_ref()));
    }
    assert!(for_alpha.iter().all(|m| !matches!(m, ServerMessage::Data { .. })));
    let mut for_beta = Vec::new();
    while let Ok(event) = beta_rx.try_recv() {
        for_beta.extend(forward_room_event(event, beta.current_peer_id.as_ref()));
    }
    assert_eq!(
        for_beta.last(),
        Some(&ServerMessage::Data { from: "a".to_string(), data: "payload".to_string() })
    );
}

#[test]
fn request_sync_answers_with_the_snapshot_or_the_empty_document() {
    let mut registry = RoomRegistry::new();
    let record = RevivalRecord::unknown();
    let mut session = Session::new();
    handle_client_message(&mut session, &mut registry, &join("ASK222", "a", true), &record, 1).unwrap();
    let step = handle_client_message(&mut session, &mut registry, &ClientMessage::RequestSync, &record, 2)
        .unwrap();
    assert_eq!(step.replies, vec![ServerMessage::DocumentSync { document: String::new() }]);
    handle_client_message(&mut session, &mut registry, &sync("body"), &record, 3).unwrap();
    let step = handle_client_message(&mut session, &mut registry, &ClientMessage::RequestSync, &record, 4)
        .unwrap();
    assert_eq!(step.replies, vec![ServerMessage::DocumentSync { document: "body".to_string() }]);
    assert!(step.published.is_empty());
}

#[test]
fn leave_ends_the_session_and_marks_the_room_idle() {
    let mut registry = RoomRegistry::new();
    let record = RevivalRecord::unknown();
    let mut session = Session::new();
    handle_client_message(&mut session, &mut registry, &join("LEAVE2", "a", true), &record, 100).unwrap();
    assert_eq!(registry.rooms.get("LEAVE2").unwrap().empty_since, None);
    let step =
        handle_client_message(&mut session, &mut registry, &ClientMessage::Leave, &record, 200).unwrap();
    assert!(step.close);
    assert!(step.replies.is_empty());
    assert_eq!(step.published, vec![RoomEvent::PeerLeft { peer_id: "a".to_string() }]);
    assert!(!session.is_bound());
    let room = registry.rooms.get("LEAVE2").unwrap();
    assert!(room.peers.is_empty());
    assert_eq!(room.empty_since, Some(200));
}

#[test]
fn the_idle_marker_follows_the_peers() {
    let mut registry = RoomRegistry::new();
    let record = RevivalRecord::unknown();
    let mut alpha = Session::new();
    let mut beta = Session::new();
    let idle = |registry: &RoomRegistry| {
        let room = registry.rooms.get("MARK22").unwrap();
        assert_eq!(room.empty_since.is_some(), room.peers.is_empty());
        room.empty_since
    };
    handle_client_message(&mut alpha, &mut registry, &join("MARK22", "a", true), &record, 1).unwrap();
    assert_eq!(idle(&registry), None);
    handle_client_message(&mut beta, &mut registry, &join("MARK22", "b", false), &record, 2).unwrap();
    assert_eq!(idle(&registry), None);
    disconnect(&mut alpha, &mut registry, 3);
    assert_eq!(idle(&registry), None);
    disconnect(&mut beta, &mut registry, 4);
    assert_eq!(idle(&registry), Some(4));
    handle_client_message(&mut alpha, &mut registry, &join("MARK22", "a", true), &record, 5).unwrap();
    assert_eq!(idle(&registry), None);
}

#[test]
fn leave_room_without_a_live_room_does_nothing() {
    let mut registry = RoomRegistry::new();
    let published = leave_room(&mut registry, "GONE22", "a", 9);
    assert!(published.is_empty());
    assert_eq!(registry.len(), 0);
}

#[test]
fn shutdown_sends_a_close_frame_and_ends_the_session() {
    let mut registry = RoomRegistry::new();
    let record = RevivalRecord::unknown();
    let mut alpha = Session::new();
    handle_client_message(&mut alpha, &mut registry, &join("SHUT22", "a", true), &record, 10).unwrap();
    let turn = handle_socket(
        &mut alpha,
        &mut registry,
        SessionInput::System(SystemEvent::Shutdown),
        &record,
        20,
    );
    assert!(turn.send_close_frame);
    assert!(turn.step.close);
    assert_eq!(turn.step.published, vec![RoomEvent::PeerLeft { peer_id: "a".to_string() }]);
    assert!(!alpha.is_bound());
    assert_eq!(registry.rooms.get("SHUT22").unwrap().empty_since, Some(20));
}

#[test]
fn other_system_events_and_other_frames_are_ignored() {
    let mut registry = RoomRegistry::new();
    let record = RevivalRecord::unknown();
    let mut session = Session::new();
    handle_client_message(&mut session, &mut registry, &join("QUIET2", "a", true), &record, 1).unwrap();
    for input in [
        SessionInput::OtherFrame,
        SessionInput::System(SystemEvent::RoomCreated { room_id: "x".to_string() }),
        SessionInput::System(SystemEvent::RoomClosed { room_id: "x".to_string() }),
    ] {
        let turn = handle_socket(&mut session, &mut registry, input, &record, 2);
        assert!(turn.step.replies.is_empty());
        assert!(turn.step.published.is_empty());
        assert!(!turn.step.close);
        assert!(!turn.send_close_frame);
        assert!(session.is_bound());
    }
}

#[test]
fn a_malformed_frame_is_answered_with_an_error() {
    let mut registry = RoomRegistry::new();
    let record = RevivalRecord::unknown();
    let mut session = Session::new();
    let turn = handle_socket(
        &mut session,
        &mut registry,
        SessionInput::Malformed { reason: "missing field `action`".to_string() },
        &record,
        1,
    );
    assert_eq!(
        turn.step.replies,
        vec![ServerMessage::Error {
            message: "Invalid message format: missing field `action`".to_string()
        }]
    );
    assert!(!turn.step.close);
}

#[test]
fn a_bus_event_becomes_a_reply_of_the_turn() {
    let mut registry = RoomRegistry::new();
    let record = RevivalRecord::unknown();
    let mut session = Session::new();
    handle_client_message(&mut session, &mut registry, &join("TURN22", "me", true), &record, 1).unwrap();
    let own = RoomEvent::DocumentUpdate { from: "me".to_string(), document: "d".to_string() };
    let turn = handle_socket(&mut session, &mut registry, SessionInput::Bus(own), &record, 2);
    assert!(turn.step.replies.is_empty());
    let foreign = RoomEvent::DocumentUpdate { from: "you".to_string(), document: "d".to_string() };
    let turn = handle_socket(&mut session, &mut registry, SessionInput::Bus(foreign), &record, 3);
    assert_eq!(turn.step.replies, vec![ServerMessage::DocumentSync { document: "d".to_string() }]);
}

#[test]
fn metadata_travels_unchanged() {
    let mut registry = RoomRegistry::new();
    let record = RevivalRecord::unknown();
    let mut session = Session::new();
    let metadata = serde_json::Value::String("blue".to_string());
    let msg = ClientMessage::Join {
        room_code: "META22".to_string(),
        peer_id: "a".to_string(),
        is_host: false,
        metadata: Some(metadata.clone()),
    };
    let step = handle_client_message(&mut session, &mut registry, &msg, &record, 1).unwrap();
    match &step.replies[0] {
        ServerMessage::RoomInfo { peers, .. } => assert_eq!(peers[0].metadata, Some(metadata.clone())),
        other => panic!("unexpected first reply {:?}", other),
    }
    match &step.published[0] {
        RoomEvent::PeerJoined { peer } => assert_eq!(peer.metadata, Some(metadata)),
        other => panic!("unexpected event {:?}", other),
    }
}

#[test]
fn a_peer_that_joins_again_under_its_id_replaces_itself() {
    let mut registry = RoomRegistry::new();
    let record = RevivalRecord::unknown();
    let mut first = Session::new();
    let mut second = Session::new();
    handle_client_message(&mut first, &mut registry, &join("SAME22", "a", true), &record, 1).unwrap();
    let step = handle_client_message(&mut second, &mut registry, &join("SAME22", "a", false), &record, 2).unwrap();
    match &step.replies[0] {
        ServerMessage::RoomInfo { peers, .. } => {
            assert_eq!(peers.len(), 1);
            assert_eq!(peers[0].joined_at, 2);
            assert!(!peers[0].is_host);
        }
        other => panic!("unexpected first reply {:?}", other),
    }
}
