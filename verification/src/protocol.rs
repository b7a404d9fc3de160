//! Data exchanged between the editor, the collaboration server and the
//! WebSocket peers.

use vstd::prelude::*;
use vstd::string::*;

verus! {

/// A time in milliseconds, as the protocol carries it: the bit pattern of
/// the IEEE-754 double that clients send. The library stores, copies and
/// forwards such times; it never computes with them.
#[derive(Clone, Copy, Debug, PartialEq, Eq, Structural)]
pub struct Millis {
    pub bits: u64,
}

impl Millis {
    /// The time `0.0` ms (positive zero).
    pub fn zero() -> (m: Millis)
        ensures
            m.bits == 0,
    {
        Millis { bits: 0 }
    }
}

/// A cut range of a video, in milliseconds.
#[derive(Clone, Copy, Debug, PartialEq, Eq, Structural)]
pub struct TrimRange {
    pub start_ms: Millis,
    pub end_ms: Millis,
}

impl TrimRange {
    pub fn new(start_ms: Millis, end_ms: Millis) -> (r: TrimRange)
        ensures
            r.start_ms == start_ms,
            r.end_ms == end_ms,
    {
        TrimRange { start_ms, end_ms }
    }
}

impl Default for TrimRange {
    /// The empty range `0.0 .. 0.0`.
    fn default() -> (r: TrimRange)
        ensures
            r.start_ms.bits == 0,
            r.end_ms.bits == 0,
    {
        TrimRange { start_ms: Millis::zero(), end_ms: Millis::zero() }
    }
}

/// The state of a collaboration session as peers see it (payload of
/// `StateSync`).
#[derive(Clone, Copy, Debug, PartialEq, Eq, Structural)]
pub struct SessionState {
    pub playhead_ms: Millis,
    pub trim_range: TrimRange,
    pub participant_count: usize,
}

impl Default for SessionState {
    fn default() -> (s: SessionState)
        ensures
            s.playhead_ms.bits == 0,
            s.trim_range.start_ms.bits == 0,
            s.trim_range.end_ms.bits == 0,
            s.participant_count == 0,
    {
        SessionState { playhead_ms: Millis::zero(), trim_range: TrimRange::default(), participant_count: 0 }
    }
}

/// REST request that creates a session.
#[derive(Clone, Copy, Debug, PartialEq, Eq, Structural)]
pub struct CreateSessionRequest {
    pub initial_trim_range: Option<TrimRange>,
}

impl Default for CreateSessionRequest {
    fn default() -> (r: CreateSessionRequest)
        ensures
            r.initial_trim_range is None,
    {
        CreateSessionRequest { initial_trim_range: None }
    }
}

/// REST answer to a session creation.
#[derive(Clone, Debug, PartialEq, Eq)]
pub struct CreateSessionResponse {
    pub session_id: String,
    pub ws_url: String,
    pub share_url: String,
}

/// REST answer describing a session.
#[derive(Clone, Debug, PartialEq, Eq)]
pub struct SessionInfoResponse {
    pub session_id: String,
    pub state: SessionState,
    pub created_at_unix: u64,
}

/// Messages of the WebSocket protocol, shared by clients and server.
#[derive(Clone, Debug, PartialEq, Eq)]
pub enum WsMessage {
    TimestampUpdate { participant_id: String, playhead_ms: Millis },
    TrimUpdate { participant_id: String, range: TrimRange },
    ParticipantJoined { participant_id: String, participant_count: usize },
    ParticipantLeft { participant_id: String, participant_count: usize },
    StateSync(SessionState),
    Ping,
    Pong,
    Error { code: String, message: String },
}

/// Path of the WebSocket endpoint of a session: `/ws/<id>`.
pub open spec fn ws_url_of(session_id: Seq<char>) -> Seq<char> {
    "/ws/"@ + session_id
}

/// Link that invites others into a session: `<frontend>/?session=<id>`.
pub open spec fn share_url_of(frontend_url: Seq<char>, session_id: Seq<char>) -> Seq<char> {
    frontend_url + "/?session="@ + session_id
}

/// Builds the answer to a session creation from the new session's id and
/// the address the editor is served from.
pub fn create_session_response(session_id: String, frontend_url: &str) -> (r: CreateSessionResponse)
    ensures
        r.session_id@ == session_id@,
        r.ws_url@ == ws_url_of(session_id@),
        r.share_url@ == share_url_of(frontend_url@, session_id@),
{
    let mut ws_url = String::from_str("/ws/");
    ws_url.append(session_id.as_str());
    let mut share_url = String::from_str(frontend_url);
    share_url.append("/?session=");
    share_url.append(session_id.as_str());
    CreateSessionResponse { session_id, ws_url, share_url }
}

/// HTTP status of a created session.
pub const STATUS_CREATED: u16 = 201;

/// HTTP status of a request for a session that does not exist.
pub const STATUS_NOT_FOUND: u16 = 404;

/// An error the REST API answers with: its HTTP status, and the body
/// `{"error": code, "message": message}`.
#[derive(Clone, Debug, PartialEq, Eq)]
pub struct ApiError {
    pub status: u16,
    pub code: String,
    pub message: String,
}

/// The text that tells that the session `id` does not exist.
pub open spec fn not_found_text(id: Seq<char>) -> Seq<char> {
    "Session '"@ + id + "' nicht gefunden"@
}

fn not_found_message(id: &str) -> (m: String)
    ensures
        m@ == not_found_text(id@),
{
    let mut m = String::from_str("Session '");
    m.append(id);
    m.append("' nicht gefunden");
    m
}

/// The REST answer for a session that does not exist: 404, code
/// `SESSION_NOT_FOUND`.
pub fn session_not_found(id: &str) -> (e: ApiError)
    ensures
        e.status == STATUS_NOT_FOUND,
        e.code@ == "SESSION_NOT_FOUND"@,
        e.message@ == not_found_text(id@),
{
    ApiError { status: STATUS_NOT_FOUND, code: String::from_str("SESSION_NOT_FOUND"), message: not_found_message(id) }
}

/// The WebSocket frame a connection to a session that does not exist is
/// answered with before it is closed.
pub fn session_not_found_frame(id: &str) -> (m: WsMessage)
    ensures
        m matches WsMessage::Error { code, message } && code@ == "SESSION_NOT_FOUND"@ && message@
            == not_found_text(id@),
{
    WsMessage::Error { code: String::from_str("SESSION_NOT_FOUND"), message: not_found_message(id) }
}

/// What the health endpoint answers: `{"status": "ok", "active_sessions": n}`.
#[derive(Clone, Debug, PartialEq, Eq)]
pub struct HealthReport {
    pub status: String,
    pub active_sessions: usize,
}

/// The health report for a server with the given number of sessions.
pub fn health_report(active_sessions: usize) -> (r: HealthReport)
    ensures
        r.status@ == "ok"@,
        r.active_sessions == active_sessions,
{
    HealthReport { status: String::from_str("ok"), active_sessions }
}

} // verus!
