use flashcut::protocol::{
    create_session_response, health_report, session_not_found, session_not_found_frame,
    CreateSessionRequest, Millis, SessionState, TrimRange, WsMessage,
};

fn ms(v: f64) -> Millis {
    Millis { bits: v.to_bits() }
}

#[test]
fn create_session_response_builds_urls() {
    let r = create_session_response("ab12cd34".to_string(), "http://localhost:8080");
    assert_eq!(r.session_id, "ab12cd34");
    assert_eq!(r.ws_url, "/ws/ab12cd34");
    assert_eq!(r.share_url, "http://localhost:8080/?session=ab12cd34");
}

#[test]
fn create_session_response_with_empty_frontend_url() {
    let r = create_session_response("00000000".to_string(), "");
    assert_eq!(r.ws_url, "/ws/00000000");
    assert_eq!(r.share_url, "/?session=00000000");
}

#[test]
fn defaults_are_zero() {
    let t = TrimRange::default();
    assert_eq!(f64::from_bits(t.start_ms.bits), 0.0);
    assert_eq!(f64::from_bits(t.end_ms.bits), 0.0);
    let s = SessionState::default();
    assert_eq!(s.participant_count, 0);
    assert_eq!(s.playhead_ms, Millis::zero());
    assert_eq!(s.trim_range, t);
    assert!(CreateSessionRequest::default().initial_trim_range.is_none());
}

#[test]
fn trim_range_new_keeps_its_ends() {
    let t = TrimRange::new(ms(1000.0), ms(4000.5));
    assert_eq!(f64::from_bits(t.start_ms.bits), 1000.0);
    assert_eq!(f64::from_bits(t.end_ms.bits), 4000.5);
}

#[test]
fn not_found_answers() {
    let e = session_not_found("abc");
    assert_eq!(e.status, 404);
    assert_eq!(e.code, "SESSION_NOT_FOUND");
    assert_eq!(e.message, "Session 'abc' nicht gefunden");
    assert_eq!(
        session_not_found_frame("abc"),
        WsMessage::Error { code: "SESSION_NOT_FOUND".to_string(), message: "Session 'abc' nicht gefunden".to_string() }
    );
}

#[test]
fn health_report_is_ok_with_count() {
    let r = health_report(3);
    assert_eq!(r.status, "ok");
    assert_eq!(r.active_sessions, 3);
}
