//! The rules by which the collaboration server relays a session between its
//! participants: what joining, leaving and each client message do to the
//! session's state, what is broadcast in answer, and which broadcasts a
//! participant is sent.

use vstd::prelude::*;
use crate::protocol::{CreateSessionRequest, SessionInfoResponse, TrimRange, WsMessage};
use crate::protocol::SessionState as SharedSessionState;
use crate::session::SessionState;

verus! {

/// The state after one more participant joined.
pub open spec fn state_after_join(s: SessionState) -> SessionState {
    SessionState {
        playhead_ms: s.playhead_ms,
        trim_start_ms: s.trim_start_ms,
        trim_end_ms: s.trim_end_ms,
        participant_count: (s.participant_count + 1) as usize,
    }
}

/// The state after a participant left; the count does not go below zero.
pub open spec fn state_after_leave(s: SessionState) -> SessionState {
    SessionState {
        playhead_ms: s.playhead_ms,
        trim_start_ms: s.trim_start_ms,
        trim_end_ms: s.trim_end_ms,
        participant_count: if s.participant_count == 0 {
            0
        } else {
            (s.participant_count - 1) as usize
        },
    }
}

/// The state after a message from a client: a timestamp update moves the
/// playhead, a trim update sets the cut range, anything else leaves the
/// state as it is.
pub open spec fn state_after_message(s: SessionState, m: WsMessage) -> SessionState {
    match m {
        WsMessage::TimestampUpdate { playhead_ms, .. } => SessionState {
            playhead_ms: playhead_ms,
            trim_start_ms: s.trim_start_ms,
            trim_end_ms: s.trim_end_ms,
            participant_count: s.participant_count,
        },
        WsMessage::TrimUpdate { range, .. } => SessionState {
            playhead_ms: s.playhead_ms,
            trim_start_ms: range.start_ms,
            trim_end_ms: range.end_ms,
            participant_count: s.participant_count,
        },
        _ => s,
    }
}

/// What the server broadcasts in answer to a message from the participant
/// `own`: a timestamp or trim update is re-sent under the participant's own
/// id (whatever id the client wrote into it), a `Ping` is answered with a
/// `Pong`, and every other client message is dropped.
pub open spec fn reply_for(m: WsMessage, own: String) -> Option<WsMessage> {
    match m {
        WsMessage::TimestampUpdate { playhead_ms, .. } => Some(
            WsMessage::TimestampUpdate { participant_id: own, playhead_ms: playhead_ms },
        ),
        WsMessage::TrimUpdate { range, .. } => Some(WsMessage::TrimUpdate { participant_id: own, range: range }),
        WsMessage::Ping => Some(WsMessage::Pong),
        _ => None,
    }
}

/// Whether a broadcast message is sent on to the participant `own`: every
/// message is, except the participant's own timestamp and trim updates.
pub open spec fn forwards_to(m: WsMessage, own: Seq<char>) -> bool {
    match m {
        WsMessage::TimestampUpdate { participant_id, .. } => participant_id@ != own,
        WsMessage::TrimUpdate { participant_id, .. } => participant_id@ != own,
        _ => true,
    }
}

/// The session state as peers see it: the cut range as a `TrimRange`.
pub open spec fn shared_view(s: SessionState) -> SharedSessionState {
    SharedSessionState {
        playhead_ms: s.playhead_ms,
        trim_range: TrimRange { start_ms: s.trim_start_ms, end_ms: s.trim_end_ms },
        participant_count: s.participant_count,
    }
}

/// The state of a new session after the creation request: its initial cut
/// range, when the request gives one.
pub open spec fn state_with_request(s: SessionState, req: CreateSessionRequest) -> SessionState {
    match req.initial_trim_range {
        Some(range) => SessionState {
            playhead_ms: s.playhead_ms,
            trim_start_ms: range.start_ms,
            trim_end_ms: range.end_ms,
            participant_count: s.participant_count,
        },
        None => s,
    }
}

/// Counts one more participant.
pub fn joined(s: SessionState) -> (r: SessionState)
    requires
        s.participant_count < usize::MAX,
    ensures
        r == state_after_join(s),
{
    SessionState {
        playhead_ms: s.playhead_ms,
        trim_start_ms: s.trim_start_ms,
        trim_end_ms: s.trim_end_ms,
        participant_count: s.participant_count + 1,
    }
}

/// Counts one participant less, stopping at zero.
pub fn left(s: SessionState) -> (r: SessionState)
    ensures
        r == state_after_leave(s),
{
    SessionState {
        playhead_ms: s.playhead_ms,
        trim_start_ms: s.trim_start_ms,
        trim_end_ms: s.trim_end_ms,
        participant_count: s.participant_count.saturating_sub(1),
    }
}

/// Applies a client message to the session state.
pub fn apply_client_message(s: SessionState, m: &WsMessage) -> (r: SessionState)
    ensures
        r == state_after_message(s, *m),
{
    match m {
        WsMessage::TimestampUpdate { playhead_ms, .. } => SessionState {
            playhead_ms: *playhead_ms,
            trim_start_ms: s.trim_start_ms,
            trim_end_ms: s.trim_end_ms,
            participant_count: s.participant_count,
        },
        WsMessage::TrimUpdate { range, .. } => SessionState {
            playhead_ms: s.playhead_ms,
            trim_start_ms: range.start_ms,
            trim_end_ms: range.end_ms,
            participant_count: s.participant_count,
        },
        _ => s,
    }
}

/// The message broadcast in answer to a message from the participant with
/// the given id, if any.
pub fn relay_reply(m: &WsMessage, participant_id: &String) -> (r: Option<WsMessage>)
    ensures
        r == reply_for(*m, *participant_id),
{
    match m {
        WsMessage::TimestampUpdate { playhead_ms, .. } => Some(
            WsMessage::TimestampUpdate { participant_id: participant_id.clone(), playhead_ms: *playhead_ms },
        ),
        WsMessage::TrimUpdate { range, .. } => Some(
            WsMessage::TrimUpdate { participant_id: participant_id.clone(), range: *range },
        ),
        WsMessage::Ping => Some(WsMessage::Pong),
        _ => None,
    }
}

/// Whether a broadcast message goes on to the participant with the given
/// id: a participant is not sent back its own timestamp and trim updates.
pub fn should_forward(m: &WsMessage, participant_id: &String) -> (r: bool)
    ensures
        r == forwards_to(*m, participant_id@),
{
    match m {
        WsMessage::TimestampUpdate { participant_id: from, .. } => !from.eq(participant_id),
        WsMessage::TrimUpdate { participant_id: from, .. } => !from.eq(participant_id),
        _ => true,
    }
}

/// The session state as peers see it.
pub fn shared_state(s: SessionState) -> (r: SharedSessionState)
    ensures
        r == shared_view(s),
{
    SharedSessionState {
        playhead_ms: s.playhead_ms,
        trim_range: TrimRange { start_ms: s.trim_start_ms, end_ms: s.trim_end_ms },
        participant_count: s.participant_count,
    }
}

/// Applies a creation request to the state of a new session.
pub fn apply_create_request(s: SessionState, req: &CreateSessionRequest) -> (r: SessionState)
    ensures
        r == state_with_request(s, *req),
{
    match req.initial_trim_range {
        Some(range) => SessionState {
            playhead_ms: s.playhead_ms,
            trim_start_ms: range.start_ms,
            trim_end_ms: range.end_ms,
            participant_count: s.participant_count,
        },
        None => s,
    }
}

/// The description of a session that the REST API answers with.
pub fn session_info(session_id: String, s: SessionState, created_at_unix: u64) -> (r: SessionInfoResponse)
    ensures
        r.session_id == session_id,
        r.state == shared_view(s),
        r.created_at_unix == created_at_unix,
{
    SessionInfoResponse { session_id, state: shared_state(s), created_at_unix }
}

/// The kinds of WebSocket frames a client sends.
#[derive(Clone, Copy, Debug, PartialEq, Eq, Structural)]
pub enum ClientFrame {
    Text,
    Binary,
    Ping,
    Pong,
    Close,
}

/// What the server does with a client frame.
#[derive(Clone, Copy, Debug, PartialEq, Eq, Structural)]
pub enum FrameAction {
    /// Parse the text as a protocol message (and drop it with a warning
    /// when it is not one).
    Parse,
    /// Nothing.
    Ignore,
    /// Stop reading from the client.
    Disconnect,
}

/// Text frames carry protocol messages. A close frame ends the connection,
/// and so does a binary frame: video data must never reach the server, so
/// binary data is refused by disconnecting. Ping and pong frames are
/// ignored.
pub fn frame_action(f: ClientFrame) -> (a: FrameAction)
    ensures
        f == ClientFrame::Text ==> a == FrameAction::Parse,
        f == ClientFrame::Close || f == ClientFrame::Binary ==> a == FrameAction::Disconnect,
        f == ClientFrame::Ping || f == ClientFrame::Pong ==> a == FrameAction::Ignore,
{
    match f {
        ClientFrame::Text => FrameAction::Parse,
        ClientFrame::Close => FrameAction::Disconnect,
        ClientFrame::Binary => FrameAction::Disconnect,
        _ => FrameAction::Ignore,
    }
}

/// What a participant's broadcast receiver got.
#[derive(Clone, Copy, Debug, PartialEq, Eq, Structural)]
pub enum BroadcastReceipt {
    /// A message.
    Message,
    /// Notice that messages were missed because the receiver fell behind.
    Lagged,
    /// The channel is closed.
    Closed,
}

/// Whether the participant keeps listening to the session's broadcasts: a
/// receiver that fell behind goes on (with a warning), a closed channel
/// ends the listening.
pub fn keeps_listening(r: BroadcastReceipt) -> (b: bool)
    ensures
        b == (r != BroadcastReceipt::Closed),
{
    match r {
        BroadcastReceipt::Closed => false,
        _ => true,
    }
}

/// A participant who joins and then leaves leaves the session state as it
/// was.
pub proof fn law_join_then_leave(s: SessionState)
    requires
        s.participant_count < usize::MAX,
    ensures
        state_after_leave(state_after_join(s)) == s,
{
}

/// Leaving never takes the count below zero, and otherwise takes one off.
pub proof fn law_leave_counts_down(s: SessionState)
    ensures
        s.participant_count == 0 ==> state_after_leave(s).participant_count == 0,
        s.participant_count > 0 ==> state_after_leave(s).participant_count == s.participant_count - 1,
{
}

/// Client messages never change how many participants a session has.
pub proof fn law_messages_keep_participants(s: SessionState, m: WsMessage)
    ensures
        state_after_message(s, m).participant_count == s.participant_count,
{
}

/// What peers are shown after a trim update is the range it carried, and
/// after a timestamp update the playhead it carried; the other fields stay.
pub proof fn law_updates_are_visible(s: SessionState, m: WsMessage)
    ensures
        m matches WsMessage::TrimUpdate { range, .. } ==> {
            &&& shared_view(state_after_message(s, m)).trim_range == range
            &&& shared_view(state_after_message(s, m)).playhead_ms == s.playhead_ms
        },
        m matches WsMessage::TimestampUpdate { playhead_ms, .. } ==> {
            &&& shared_view(state_after_message(s, m)).playhead_ms == playhead_ms
            &&& shared_view(state_after_message(s, m)).trim_range == shared_view(s).trim_range
        },
        !(m is TrimUpdate || m is TimestampUpdate) ==> state_after_message(s, m) == s,
{
}

/// A `Ping` is answered with a `Pong`; timestamp and trim updates are
/// broadcast under the sender's own id with what they carried; no other
/// client message is broadcast, and no client's `Ping` is.
pub proof fn law_replies(m: WsMessage, own: String)
    ensures
        m is Ping ==> reply_for(m, own) == Some(WsMessage::Pong),
        m matches WsMessage::TimestampUpdate { playhead_ms, .. } ==> reply_for(m, own) == Some(
            WsMessage::TimestampUpdate { participant_id: own, playhead_ms: playhead_ms },
        ),
        m matches WsMessage::TrimUpdate { range, .. } ==> reply_for(m, own) == Some(
            WsMessage::TrimUpdate { participant_id: own, range: range },
        ),
        !(m is Ping || m is TimestampUpdate || m is TrimUpdate) ==> reply_for(m, own) is None,
        reply_for(m, own) matches Some(r) ==> r !is Ping,
{
}

/// A participant's own updates are never sent back to it: whatever a
/// client sends, what the server broadcasts in answer is not forwarded to
/// that client.
pub proof fn law_own_updates_not_echoed(m: WsMessage, own: String)
    ensures
        forall|r: WsMessage|
            reply_for(m, own) == Some(r) && (r is TimestampUpdate || r is TrimUpdate) ==> !forwards_to(r, own@),
{
}

/// A participant is never sent back its own timestamp or trim update, and
/// is sent every other message.
pub proof fn law_no_echo(m: WsMessage, own: Seq<char>)
    ensures
        forwards_to(m, own) <==> !(match m {
            WsMessage::TimestampUpdate { participant_id, .. } => participant_id@ == own,
            WsMessage::TrimUpdate { participant_id, .. } => participant_id@ == own,
            _ => false,
        }),
{
}

/// A session created with an initial cut range shows that range to peers.
pub proof fn law_initial_range_visible(s: SessionState, req: CreateSessionRequest)
    ensures
        req.initial_trim_range matches Some(range) ==> shared_view(state_with_request(s, req)).trim_range == range,
        req.initial_trim_range is None ==> state_with_request(s, req) == s,
{
}

/// Joining changes nothing but the count, which goes up by one: the
/// playhead and both ends of the cut range stay where they were.
pub proof fn law_join_changes_only_the_count(s: SessionState)
    requires
        s.participant_count < usize::MAX,
    ensures
        state_after_join(s).playhead_ms == s.playhead_ms,
        state_after_join(s).trim_start_ms == s.trim_start_ms,
        state_after_join(s).trim_end_ms == s.trim_end_ms,
        state_after_join(s).participant_count == s.participant_count + 1,
{
}

/// Leaving changes nothing but the count: the playhead and both ends of
/// the cut range stay where they were.
pub proof fn law_leave_changes_only_the_count(s: SessionState)
    ensures
        state_after_leave(s).playhead_ms == s.playhead_ms,
        state_after_leave(s).trim_start_ms == s.trim_start_ms,
        state_after_leave(s).trim_end_ms == s.trim_end_ms,
        state_after_leave(s).participant_count <= s.participant_count,
{
}

/// Peers are shown the state as it is: the playhead, the cut range from
/// its start to its end, and the count.
pub proof fn law_shared_view_is_faithful(s: SessionState)
    ensures
        shared_view(s).playhead_ms == s.playhead_ms,
        shared_view(s).trim_range.start_ms == s.trim_start_ms,
        shared_view(s).trim_range.end_ms == s.trim_end_ms,
        shared_view(s).participant_count == s.participant_count,
{
}

/// A client message changes exactly what it carries: a timestamp update
/// only the playhead, a trim update only the two ends of the cut range
/// (start to start, end to end), and any other message nothing.
pub proof fn law_message_changes_only_what_it_carries(s: SessionState, m: WsMessage)
    ensures
        state_after_message(s, m).participant_count == s.participant_count,
        m matches WsMessage::TimestampUpdate { playhead_ms, .. } ==> {
            &&& state_after_message(s, m).playhead_ms == playhead_ms
            &&& state_after_message(s, m).trim_start_ms == s.trim_start_ms
            &&& state_after_message(s, m).trim_end_ms == s.trim_end_ms
        },
        m matches WsMessage::TrimUpdate { range, .. } ==> {
            &&& state_after_message(s, m).playhead_ms == s.playhead_ms
            &&& state_after_message(s, m).trim_start_ms == range.start_ms
            &&& state_after_message(s, m).trim_end_ms == range.end_ms
        },
        !(m is TimestampUpdate || m is TrimUpdate) ==> state_after_message(s, m) == s,
{
}

/// A creation request changes only the cut range: the playhead and the
/// count stay, the range becomes the requested one (start to start, end
/// to end), and a request without a range changes nothing.
pub proof fn law_request_changes_only_the_range(s: SessionState, req: CreateSessionRequest)
    ensures
        state_with_request(s, req).playhead_ms == s.playhead_ms,
        state_with_request(s, req).participant_count == s.participant_count,
        req.initial_trim_range matches Some(range) ==> {
            &&& state_with_request(s, req).trim_start_ms == range.start_ms
            &&& state_with_request(s, req).trim_end_ms == range.end_ms
        },
        req.initial_trim_range is None ==> state_with_request(s, req) == s,
{
}

} // verus!
