use chat_backend::ids::uuid_to_string;
use chat_backend::session::{session_step, SessionAction, SessionEvent, WsFrame, CLIENT_TIMEOUT_NANOS, HEARTBEAT_INTERVAL_SECS};
use chat_backend::socket_server::{joined_message, ChatServer, ClientMessagePlan};

fn sorted(mut v: Vec<u128>) -> Vec<u128> {
    v.sort();
    v
}

fn sorted_names(mut v: Vec<String>) -> Vec<String> {
    v.sort();
    v
}

#[test]
fn joining_notifies_the_other_members_only() {
    let mut server: ChatServer<&str> = ChatServer::new();
    assert_eq!(server.connect(1, "main".to_string(), "a1"), Vec::<u128>::new());
    assert_eq!(server.connect(2, "main".to_string(), "a2"), vec![1]);
    assert_eq!(sorted(server.connect(3, "main".to_string(), "a3")), vec![1, 2]);
    assert_eq!(server.connect(4, "other".to_string(), "a4"), Vec::<u128>::new());
    assert_eq!(sorted_names(server.list_rooms()), vec!["main".to_string(), "other".to_string()]);
}

#[test]
fn send_message_reaches_connected_sessions() {
    let mut server: ChatServer<&str> = ChatServer::default();
    server.connect(7, "r".to_string(), "addr7");
    let (addr, text) = server.send_message(7, "hi").unwrap();
    assert_eq!((*addr, text.as_str()), ("addr7", "hi"));
    assert!(server.send_message(8, "hi").is_none());
}

#[test]
fn reconnecting_replaces_the_address() {
    let mut server: ChatServer<&str> = ChatServer::new();
    server.connect(7, "r".to_string(), "old");
    assert_eq!(server.connect(7, "r".to_string(), "new"), Vec::<u128>::new());
    assert_eq!(*server.send_message(7, "x").unwrap().0, "new");
}

#[test]
fn disconnect_leaves_every_room_and_keeps_rooms() {
    let mut server: ChatServer<u32> = ChatServer::new();
    server.connect(1, "a".to_string(), 10);
    server.connect(1, "b".to_string(), 10);
    server.connect(2, "b".to_string(), 20);
    assert_eq!(sorted_names(server.disconnect(1)), vec!["a".to_string(), "b".to_string()]);
    assert!(server.send_message(1, "x").is_none());
    assert_eq!(server.connect(3, "b".to_string(), 30), vec![2]);
    assert_eq!(sorted_names(server.list_rooms()), vec!["a".to_string(), "b".to_string()]);
    assert_eq!(server.disconnect(99), Vec::<String>::new());
}

#[test]
fn connect_then_disconnect_restores_members() {
    let mut server: ChatServer<u32> = ChatServer::new();
    server.connect(1, "a".to_string(), 10);
    server.connect(5, "a".to_string(), 50);
    server.disconnect(5);
    match server.client_message(&"a".to_string(), 0) {
        ClientMessagePlan::Deliver { targets, .. } => assert_eq!(targets, vec![1]),
        _ => panic!("expected delivery"),
    }
}

#[test]
fn client_messages_go_to_every_member_including_sender() {
    let mut server: ChatServer<u32> = ChatServer::new();
    server.connect(1, "room".to_string(), 10);
    server.connect(2, "room".to_string(), 20);
    match server.client_message(&"room".to_string(), 1_700_000_000_000) {
        ClientMessagePlan::Deliver { targets, created_at } => {
            assert_eq!(sorted(targets), vec![1, 2]);
            assert_eq!(created_at.and_utc().timestamp_millis(), 1_700_000_000_000);
        }
        _ => panic!("expected delivery"),
    }
    assert!(matches!(
        server.client_message(&"elsewhere".to_string(), 0),
        ClientMessagePlan::UnknownRoom { .. }
    ));
    assert!(matches!(server.client_message(&"room".to_string(), i64::MAX), ClientMessagePlan::Dropped));
}

#[test]
fn message_stamps_at_the_ends_of_chrono_range() {
    let mut server: ChatServer<u32> = ChatServer::new();
    server.connect(1, "room".to_string(), 10);
    let room = "room".to_string();
    for ms in [-8_334_601_228_800_000i64, 8_210_266_876_799_999] {
        match server.client_message(&room, ms) {
            ClientMessagePlan::Deliver { created_at, targets } => {
                assert_eq!(created_at.and_utc().timestamp_millis(), ms);
                assert_eq!(targets, vec![1]);
            }
            _ => panic!("expected delivery"),
        }
    }
    for ms in [-8_334_601_228_800_001i64, 8_210_266_876_800_000, i64::MIN] {
        assert!(matches!(server.client_message(&room, ms), ClientMessagePlan::Dropped));
    }
}

#[test]
fn joined_message_names_the_session() {
    assert_eq!(joined_message(1), format!("{} just joined!", uuid_to_string(1)));
    assert_eq!(joined_message(0), "00000000-0000-0000-0000-000000000000 just joined!");
}

#[test]
fn session_decisions() {
    let room = "r".to_string();
    assert!(matches!(session_step(5, &room, SessionEvent::Started),
        SessionAction::Register { self_id: 5, ref room_id } if room_id == "r"));
    assert!(matches!(session_step(5, &room, SessionEvent::Registered { delivered: true }), SessionAction::Nothing));
    assert!(matches!(session_step(5, &room, SessionEvent::Registered { delivered: false }), SessionAction::Stop));
    assert!(matches!(session_step(5, &room, SessionEvent::Tick { silent_for_nanos: CLIENT_TIMEOUT_NANOS }), SessionAction::Ping));
    assert!(matches!(session_step(5, &room, SessionEvent::Tick { silent_for_nanos: CLIENT_TIMEOUT_NANOS + 1 }), SessionAction::Stop));
    assert!(matches!(session_step(5, &room, SessionEvent::Received(None)), SessionAction::Stop));
    match session_step(5, &room, SessionEvent::Received(Some(WsFrame::Ping(vec![1, 2])))) {
        SessionAction::Pong(b) => assert_eq!(b, vec![1, 2]),
        _ => panic!("expected pong"),
    }
    assert!(matches!(session_step(5, &room, SessionEvent::Received(Some(WsFrame::Pong))), SessionAction::Heard));
    match session_step(5, &room, SessionEvent::Received(Some(WsFrame::Text("hey".to_string())))) {
        SessionAction::Forward(m) => assert_eq!((m.msg.as_str(), m.id, m.room.as_str()), ("hey", 5, "r")),
        _ => panic!("expected forward"),
    }
    assert!(matches!(session_step(5, &room, SessionEvent::Received(Some(WsFrame::Binary))), SessionAction::ReportBinary));
    assert!(matches!(session_step(5, &room, SessionEvent::Received(Some(WsFrame::Close))), SessionAction::CloseAndStop));
    assert!(matches!(session_step(5, &room, SessionEvent::Received(Some(WsFrame::Continuation))), SessionAction::Stop));
    assert!(matches!(session_step(5, &room, SessionEvent::Received(Some(WsFrame::Nop))), SessionAction::Nothing));
    match session_step(5, &room, SessionEvent::ServerText("t".to_string())) {
        SessionAction::SendText(t) => assert_eq!(t, "t"),
        _ => panic!("expected text"),
    }
    assert!(matches!(session_step(5, &room, SessionEvent::Stopping), SessionAction::Unregister { id: 5 }));
}

#[test]
fn silent_client_is_stopped_within_fifteen_seconds() {
    let room = "r".to_string();
    let interval: u128 = (HEARTBEAT_INTERVAL_SECS as u128) * 1_000_000_000;
    for heard in [0u128, 3_000_000_000, 4_999_999_999, 5_000_000_000] {
        let mut tick: u128 = 0;
        loop {
            if tick >= heard {
                let silent = tick - heard;
                match session_step(5, &room, SessionEvent::Tick { silent_for_nanos: silent }) {
                    SessionAction::Stop => {
                        assert!(silent > CLIENT_TIMEOUT_NANOS);
                        assert!(silent <= CLIENT_TIMEOUT_NANOS + interval);
                        break;
                    }
                    SessionAction::Ping => assert!(silent <= CLIENT_TIMEOUT_NANOS),
                    _ => panic!("a tick either pings or stops"),
                }
            }
            tick += interval;
        }
    }
}
