use flashcut::protocol::{CreateSessionRequest, Millis, TrimRange, WsMessage, STATUS_CREATED, STATUS_NOT_FOUND};
use flashcut::relay::{
    frame_action, keeps_listening, relay_reply, session_info, should_forward, BroadcastReceipt,
    ClientFrame, FrameAction,
};
use flashcut::session::{
    has_lifetime_passed, new_short_id, short_id, SessionState, SessionStore, UnixTime,
    BROADCAST_CAPACITY, RECONNECT_GRACE_SECS, SESSION_TTL_SECS,
};
use tokio::sync::broadcast::error::TryRecvError;

const T0: UnixTime = UnixTime { secs: 1_700_000_000, subsec_nanos: 0 };

fn at(secs: u64, subsec_nanos: u32) -> UnixTime {
    UnixTime { secs, subsec_nanos }
}

fn t0_plus(secs: u64) -> UnixTime {
    UnixTime::from_secs(T0.secs + secs)
}

fn ms(v: f64) -> Millis {
    Millis { bits: v.to_bits() }
}

fn is_short_id(s: &str) -> bool {
    s.len() == 8 && s.chars().all(|c| c.is_ascii_digit() || ('a'..='f').contains(&c))
}

fn not_found(id: &str) -> WsMessage {
    WsMessage::Error { code: "SESSION_NOT_FOUND".to_string(), message: format!("Session '{}' nicht gefunden", id) }
}

#[test]
fn short_ids_are_eight_lowercase_hex_digits() {
    for _ in 0..20 {
        let id = new_short_id();
        assert!(is_short_id(&id), "{}", id);
    }
}

#[test]
fn short_id_takes_the_first_group() {
    assert_eq!(short_id("67e55044-10b1-426f-9247-bb680e5fe0c8"), "67e55044");
}

#[test]
fn create_then_get_returns_fresh_session() {
    let mut store = SessionStore::new();
    assert_eq!(store.count(), 0);
    let id = store.create_session(T0);
    assert!(is_short_id(&id));
    assert_eq!(store.count(), 1);
    let s = store.get_session(&id, T0).expect("session exists");
    assert_eq!(s.id, id);
    assert_eq!(s.created_at, T0);
    assert_eq!(s.state, SessionState::default());
    assert_eq!(s.state.participant_count, 0);
}

#[test]
fn sessions_expire_after_two_hours() {
    let mut store = SessionStore::new();
    let id = store.create_session(T0);
    assert_eq!(SESSION_TTL_SECS, 2 * 3600);
    assert!(store.get_session(&id, t0_plus(SESSION_TTL_SECS)).is_some());
    let just_after = at(T0.secs + SESSION_TTL_SECS, 1);
    assert!(store.get_session(&id, just_after).is_none());
    assert!(store.get_session(&id, at(T0.secs - 5, 0)).is_some());
    assert!(store.info(id.clone(), just_after).is_err());
    assert!(store.join(&id, "p".to_string(), just_after).is_err());
    assert_eq!(store.count(), 1);
}

#[test]
fn count_follows_create_and_remove() {
    let mut store = SessionStore::new();
    let a = store.create_session(T0);
    let b = store.create_session(T0);
    assert_ne!(a, b);
    assert_eq!(store.count(), 2);
    store.remove_session(&a);
    assert_eq!(store.count(), 1);
}

#[test]
fn get_unknown_session_is_not_found() {
    let store = SessionStore::new();
    assert!(store.get_session("nope", T0).is_none());
    let e = store.info("xxxxxxxx".to_string(), T0).unwrap_err();
    assert_eq!(e.status, STATUS_NOT_FOUND);
    assert_eq!(e.status, 404);
    assert_eq!(e.code, "SESSION_NOT_FOUND");
    assert_eq!(e.message, "Session 'xxxxxxxx' nicht gefunden");
}

#[test]
fn remove_session_forgets_it() {
    let mut store = SessionStore::new();
    let a = store.create_session(UnixTime::from_secs(1));
    let b = store.create_session(UnixTime::from_secs(2));
    assert_ne!(a, b);
    store.remove_session(&a);
    assert!(store.get_session(&a, UnixTime::from_secs(3)).is_none());
    assert!(store.get_session(&b, UnixTime::from_secs(3)).is_some_and(|s| s.id == b));
    store.remove_session("missing");
    assert!(store.get_session(&b, UnixTime::from_secs(3)).is_some());
}

#[test]
fn initial_trim_range_is_applied() {
    let mut store = SessionStore::new();
    let id = store.create_session(UnixTime::from_secs(0));
    let req = CreateSessionRequest { initial_trim_range: Some(TrimRange::new(ms(1000.0), ms(5000.0))) };
    store.apply_create_request(&id, &req, UnixTime::from_secs(0));
    let info = store.info(id.clone(), UnixTime::from_secs(0)).unwrap();
    assert_eq!(info.session_id, id);
    assert_eq!(info.state.trim_range, TrimRange::new(ms(1000.0), ms(5000.0)));
    assert_eq!(info.created_at_unix, 0);
}

#[test]
fn request_without_range_changes_nothing() {
    let mut store = SessionStore::new();
    let id = store.create_session(UnixTime::from_secs(0));
    store.apply_create_request(&id, &CreateSessionRequest::default(), UnixTime::from_secs(0));
    assert_eq!(store.get_session(&id, UnixTime::from_secs(0)).unwrap().state, SessionState::default());
}

#[test]
fn create_session_for_request_answers_201_with_urls() {
    let mut store = SessionStore::new();
    let req = CreateSessionRequest { initial_trim_range: Some(TrimRange::new(ms(0.0), ms(2500.0))) };
    let (status, r) = store.create_session_for_request(at(7, 999_000_000), &req, "https://flashcut.example");
    assert_eq!(status, STATUS_CREATED);
    assert_eq!(status, 201);
    assert!(is_short_id(&r.session_id));
    assert_eq!(r.ws_url, format!("/ws/{}", r.session_id));
    assert_eq!(r.share_url, format!("https://flashcut.example/?session={}", r.session_id));
    let info = store.info(r.session_id.clone(), at(8, 0)).unwrap();
    assert_eq!(info.state.trim_range, TrimRange::new(ms(0.0), ms(2500.0)));
    assert_eq!(info.created_at_unix, 7);
    assert_eq!(info.state.participant_count, 0);
}

#[test]
fn join_counts_and_announces() {
    let mut store = SessionStore::new();
    let id = store.create_session(T0);
    let j = store.join(&id, "p1".to_string(), T0).ok().unwrap();
    assert_eq!(j.announcement, WsMessage::ParticipantJoined { participant_id: "p1".to_string(), participant_count: 1 });
    match j.sync {
        WsMessage::StateSync(s) => assert_eq!(s.participant_count, 1),
        other => panic!("unexpected {:?}", other),
    }
    let j2 = store.join(&id, "p2".to_string(), T0).ok().unwrap();
    assert_eq!(j2.announcement, WsMessage::ParticipantJoined { participant_id: "p2".to_string(), participant_count: 2 });
    assert_eq!(store.get_session(&id, T0).unwrap().state.participant_count, 2);
}

#[test]
fn join_missing_session_answers_with_error_frame() {
    let mut store = SessionStore::new();
    match store.join("missing", "p".to_string(), T0) {
        Err(frame) => assert_eq!(frame, not_found("missing")),
        Ok(_) => panic!("joined a missing session"),
    }
    assert_eq!(store.count(), 0);
}

#[test]
fn joined_sender_is_the_session_channel() {
    let mut store = SessionStore::new();
    let id = store.create_session(T0);
    let j = store.join(&id, "p1".to_string(), T0).ok().unwrap();
    let mut rx = j.sender.subscribe();
    let other = store.get_session(&id, T0).unwrap().sender;
    other.send(WsMessage::Pong).unwrap();
    assert_eq!(rx.try_recv().unwrap(), WsMessage::Pong);
}

#[test]
fn updates_are_resent_under_the_connection_id() {
    let mut store = SessionStore::new();
    let id = store.create_session(T0);
    store.join(&id, "p1".to_string(), T0).ok().unwrap();
    let me = "p1".to_string();
    let m = WsMessage::TimestampUpdate { participant_id: "forged".to_string(), playhead_ms: ms(1234.5) };
    assert_eq!(
        store.client_message(&id, &me, &m),
        Some(WsMessage::TimestampUpdate { participant_id: "p1".to_string(), playhead_ms: ms(1234.5) })
    );
    let range = TrimRange::new(ms(200.0), ms(900.0));
    let t = WsMessage::TrimUpdate { participant_id: "someone".to_string(), range };
    let out = store.client_message(&id, &me, &t).unwrap();
    assert_eq!(out, WsMessage::TrimUpdate { participant_id: "p1".to_string(), range });
    assert!(!should_forward(&out, &me));
    let info = store.info(id.clone(), T0).unwrap();
    assert_eq!(info.state.playhead_ms, ms(1234.5));
    assert_eq!(info.state.trim_range, range);
    assert_eq!(info.state.participant_count, 1);
}

#[test]
fn ping_is_answered_with_pong_and_other_messages_are_dropped() {
    let mut store = SessionStore::new();
    let id = store.create_session(T0);
    let me = "p".to_string();
    assert_eq!(store.client_message(&id, &me, &WsMessage::Ping), Some(WsMessage::Pong));
    let e = WsMessage::Error { code: "x".to_string(), message: "y".to_string() };
    assert_eq!(store.client_message(&id, &me, &e), None);
    let forged = WsMessage::ParticipantJoined { participant_id: "x".to_string(), participant_count: 99 };
    assert_eq!(store.client_message(&id, &me, &forged), None);
    assert_eq!(store.client_message(&id, &me, &WsMessage::Pong), None);
    assert_eq!(store.get_session(&id, T0).unwrap().state, SessionState::default());
}

#[test]
fn message_for_missing_session_is_still_answered() {
    let mut store = SessionStore::new();
    let m = WsMessage::TimestampUpdate { participant_id: "p".to_string(), playhead_ms: ms(1.0) };
    assert_eq!(store.client_message("gone", &"p".to_string(), &m), Some(m.clone()));
    assert!(store.get_session("gone", T0).is_none());
}

#[test]
fn leave_counts_down_and_keeps_the_session() {
    let mut store = SessionStore::new();
    let id = store.create_session(T0);
    store.join(&id, "p1".to_string(), T0).ok().unwrap();
    store.join(&id, "p2".to_string(), T0).ok().unwrap();
    let l1 = store.leave(&id, "p1".to_string()).unwrap();
    assert_eq!(l1.announcement, WsMessage::ParticipantLeft { participant_id: "p1".to_string(), participant_count: 1 });
    assert!(!l1.check_after_grace);
    let l2 = store.leave(&id, "p2".to_string()).unwrap();
    assert_eq!(l2.announcement, WsMessage::ParticipantLeft { participant_id: "p2".to_string(), participant_count: 0 });
    assert!(l2.check_after_grace);
    assert!(store.get_session(&id, T0).is_some());
    assert!(store.leave("missing", "p3".to_string()).is_none());
}

#[test]
fn empty_session_is_removed_after_the_grace_period() {
    let mut store = SessionStore::new();
    let id = store.create_session(T0);
    store.join(&id, "p".to_string(), T0).ok().unwrap();
    store.leave(&id, "p".to_string()).unwrap();
    let later = t0_plus(RECONNECT_GRACE_SECS);
    assert!(store.expire_if_empty(&id, later));
    assert!(store.get_session(&id, later).is_none());
    assert!(!store.expire_if_empty(&id, later));
}

#[test]
fn reconnect_within_the_grace_period_keeps_the_session() {
    let mut store = SessionStore::new();
    let id = store.create_session(T0);
    store.join(&id, "p".to_string(), T0).ok().unwrap();
    store.leave(&id, "p".to_string()).unwrap();
    store.join(&id, "p-again".to_string(), t0_plus(1)).ok().unwrap();
    assert!(!store.expire_if_empty(&id, t0_plus(60)));
    assert_eq!(store.get_session(&id, t0_plus(60)).unwrap().state.participant_count, 1);
}

#[test]
fn leave_of_empty_session_saturates() {
    let mut store = SessionStore::new();
    let id = store.create_session(T0);
    let l = store.leave(&id, "p".to_string()).unwrap();
    assert_eq!(l.announcement, WsMessage::ParticipantLeft { participant_id: "p".to_string(), participant_count: 0 });
    assert!(store.get_session(&id, T0).is_some());
}

#[test]
fn join_then_leave_restores_state() {
    let mut store = SessionStore::new();
    let id = store.create_session(T0);
    store.join(&id, "host".to_string(), T0).ok().unwrap();
    let before = store.get_session(&id, T0).unwrap().state;
    store.join(&id, "guest".to_string(), T0).ok().unwrap();
    store.leave(&id, "guest".to_string()).unwrap();
    assert_eq!(store.get_session(&id, T0).unwrap().state, before);
}

#[test]
fn own_updates_are_not_echoed() {
    let me = "me".to_string();
    let mine = WsMessage::TimestampUpdate { participant_id: "me".to_string(), playhead_ms: ms(1.0) };
    let theirs = WsMessage::TimestampUpdate { participant_id: "you".to_string(), playhead_ms: ms(1.0) };
    let my_trim = WsMessage::TrimUpdate { participant_id: "me".to_string(), range: TrimRange::default() };
    let their_trim = WsMessage::TrimUpdate { participant_id: "you".to_string(), range: TrimRange::default() };
    assert!(!should_forward(&mine, &me));
    assert!(should_forward(&theirs, &me));
    assert!(!should_forward(&my_trim, &me));
    assert!(should_forward(&their_trim, &me));
    let joined = WsMessage::ParticipantJoined { participant_id: "me".to_string(), participant_count: 1 };
    assert!(should_forward(&joined, &me));
    assert!(should_forward(&WsMessage::Pong, &me));
    let reply = relay_reply(&theirs, &me).unwrap();
    assert!(!should_forward(&reply, &me));
}

#[test]
fn session_info_maps_trim_fields() {
    let s = SessionState {
        playhead_ms: ms(10.0),
        trim_start_ms: ms(20.0),
        trim_end_ms: ms(30.0),
        participant_count: 3,
    };
    let info = session_info("abc".to_string(), s, 99);
    assert_eq!(info.session_id, "abc");
    assert_eq!(info.state.playhead_ms, ms(10.0));
    assert_eq!(info.state.trim_range, TrimRange::new(ms(20.0), ms(30.0)));
    assert_eq!(info.state.participant_count, 3);
    assert_eq!(info.created_at_unix, 99);
}

#[test]
fn frame_actions() {
    assert_eq!(frame_action(ClientFrame::Text), FrameAction::Parse);
    assert_eq!(frame_action(ClientFrame::Close), FrameAction::Disconnect);
    assert_eq!(frame_action(ClientFrame::Binary), FrameAction::Disconnect);
    assert_eq!(frame_action(ClientFrame::Ping), FrameAction::Ignore);
    assert_eq!(frame_action(ClientFrame::Pong), FrameAction::Ignore);
}

#[test]
fn lagging_receivers_keep_listening() {
    assert!(keeps_listening(BroadcastReceipt::Message));
    assert!(keeps_listening(BroadcastReceipt::Lagged));
    assert!(!keeps_listening(BroadcastReceipt::Closed));
}

#[test]
fn session_channel_keeps_256_messages() {
    assert_eq!(BROADCAST_CAPACITY, 256);
    let mut store = SessionStore::new();
    let id = store.create_session(T0);
    let sender = store.get_session(&id, T0).unwrap().sender;
    let mut rx = sender.subscribe();
    for _ in 0..256 {
        sender.send(WsMessage::Ping).unwrap();
    }
    assert_eq!(rx.try_recv().unwrap(), WsMessage::Ping);
    let mut rx2 = sender.subscribe();
    for _ in 0..257 {
        sender.send(WsMessage::Pong).unwrap();
    }
    assert_eq!(rx2.try_recv(), Err(TryRecvError::Lagged(1)));
}

#[test]
fn lifetime_is_compared_to_the_nanosecond() {
    let created = at(100, 500);
    assert!(!has_lifetime_passed(created, at(100 + SESSION_TTL_SECS, 500)));
    assert!(has_lifetime_passed(created, at(100 + SESSION_TTL_SECS, 501)));
    assert!(has_lifetime_passed(created, at(101 + SESSION_TTL_SECS, 0)));
    assert!(!has_lifetime_passed(created, at(99, 0)));
    assert!(!has_lifetime_passed(created, created));
}

#[test]
fn created_ids_are_all_different() {
    let mut store = SessionStore::new();
    let mut ids: Vec<String> = Vec::new();
    for _ in 0..200 {
        let id = store.create_session(T0);
        assert!(is_short_id(&id));
        assert!(!ids.contains(&id));
        ids.push(id);
    }
    assert_eq!(store.count(), 200);
    for id in &ids {
        assert_eq!(store.get_session(id, T0).unwrap().id, *id);
    }
}

#[test]
fn created_at_unix_is_whole_seconds() {
    let mut store = SessionStore::new();
    let id = store.create_session(at(1_700_000_123, 999_999_999));
    let info = store.info(id, at(1_700_000_124, 0)).unwrap();
    assert_eq!(info.created_at_unix, 1_700_000_123);
}

#[test]
fn session_store_basic_lifecycle() {
    let mut store = SessionStore::new();
    assert_eq!(store.count(), 0);

    let id1 = store.create_session(T0);
    let id2 = store.create_session(T0);
    assert_ne!(id1, id2);
    assert_eq!(store.count(), 2);

    assert!(store.get_session(&id1, T0).is_some());
    store.remove_session(&id1);
    assert!(store.get_session(&id1, T0).is_none());
    assert!(store.get_session(&id2, T0).is_some_and(|s| s.id == id2));
    assert_eq!(store.count(), 1);
}

#[test]
fn session_broadcast_delivers_messages() {
    let mut store = SessionStore::new();
    let id = store.create_session(T0);
    let session = store.get_session(&id, T0).unwrap();
    let mut rx = session.sender.subscribe();
    session.sender.send(WsMessage::Ping).unwrap();
    assert!(matches!(rx.try_recv().unwrap(), WsMessage::Ping));
}
