//! The collaboration server's sessions: a concurrent map from session id to
//! session, and the operations the HTTP and WebSocket handlers perform on
//! it.

use vstd::prelude::*;
use vstd::string::*;
use dashmap::DashMap;
use tokio::sync::broadcast::Sender;
use crate::protocol::{
    create_session_response, not_found_text, session_not_found, session_not_found_frame,
    share_url_of, ws_url_of, ApiError, CreateSessionRequest, CreateSessionResponse, Millis,
    SessionInfoResponse, TrimRange, WsMessage, STATUS_CREATED, STATUS_NOT_FOUND,
};
use crate::outside::{
    channel_capacity, is_hyphenated_uuid, is_lower_hex, new_broadcast_sender, new_uuid_text,
    power_of_two_at_least, push_char, session_table, table_get, table_insert, table_len, table_new,
    table_remove,
};
use crate::relay::{
    apply_client_message, apply_create_request, joined, left, relay_reply, reply_for,
    session_info, shared_state, shared_view, state_after_join, state_after_leave,
    state_after_message, state_with_request,
};

verus! {

/// How many messages a session's broadcast channel holds for a slow
/// receiver.
pub const BROADCAST_CAPACITY: usize = 256;

/// How long a session lives, in seconds (two hours).
pub const SESSION_TTL_SECS: u64 = 7_200;

/// Nanoseconds in a second.
pub const NANOS_PER_SEC: u64 = 1_000_000_000;

/// How many random ids `create_session` draws before it falls back to
/// counting through the ids.
pub const RANDOM_ID_ATTEMPTS: u32 = 4;

/// How long an empty session is kept for its participants to reconnect,
/// in seconds.
pub const RECONNECT_GRACE_SECS: u64 = 60;

/// The server-side state of a session.
#[derive(Clone, Copy, Debug, PartialEq, Eq, Structural)]
pub struct SessionState {
    pub playhead_ms: Millis,
    pub trim_start_ms: Millis,
    pub trim_end_ms: Millis,
    pub participant_count: usize,
}

/// The state of a new session: all times zero, nobody in it.
pub open spec fn initial_state() -> SessionState {
    SessionState {
        playhead_ms: Millis { bits: 0 },
        trim_start_ms: Millis { bits: 0 },
        trim_end_ms: Millis { bits: 0 },
        participant_count: 0,
    }
}

impl Default for SessionState {
    fn default() -> (s: SessionState)
        ensures
            s == initial_state(),
    {
        SessionState {
            playhead_ms: Millis::zero(),
            trim_start_ms: Millis::zero(),
            trim_end_ms: Millis::zero(),
            participant_count: 0,
        }
    }
}

/// A reading of the system clock: the whole seconds since the Unix epoch
/// and the nanoseconds within the second.
#[derive(Clone, Copy, Debug, PartialEq, Eq, Structural)]
pub struct UnixTime {
    pub secs: u64,
    pub subsec_nanos: u32,
}

impl UnixTime {
    /// The time in nanoseconds since the Unix epoch.
    pub open spec fn nanos(self) -> int {
        self.secs * NANOS_PER_SEC + self.subsec_nanos
    }

    /// The time at a whole number of seconds since the Unix epoch.
    pub fn from_secs(secs: u64) -> (t: UnixTime)
        ensures
            t.secs == secs,
            t.subsec_nanos == 0,
            t.nanos() == secs * NANOS_PER_SEC,
    {
        UnixTime { secs, subsec_nanos: 0 }
    }
}

/// A session: its id, when it was created, the channel its messages are
/// broadcast on, and its state.
#[derive(Clone)]
pub struct Session {
    pub id: String,
    pub created_at: UnixTime,
    pub sender: Sender<WsMessage>,
    pub state: SessionState,
}

/// A short id: the first eight characters of a UUID's text, lowercase
/// hexadecimal digits.
pub open spec fn is_short_id(s: Seq<char>) -> bool {
    &&& s.len() == 8
    &&& forall|i: int| 0 <= i < 8 ==> is_lower_hex(#[trigger] s[i])
}

/// The first eight characters of a hyphenated UUID.
pub fn short_id(uuid: &str) -> (id: String)
    requires
        is_hyphenated_uuid(uuid@),
    ensures
        id@ == uuid@.subrange(0, 8),
        is_short_id(id@),
{
    proof {
        assert forall|i: int| 0 <= i < uuid@.len() implies '\0' <= #[trigger] uuid@[i] <= '\u{7f}' by {
            if !(i == 8 || i == 13 || i == 18 || i == 23) {
                assert(is_lower_hex(uuid@[i]));
            }
        }
        assert(is_ascii(uuid));
    }
    let prefix = uuid.substring_ascii(0, 8);
    let id = String::from_str(prefix);
    proof {
        assert forall|i: int| 0 <= i < 8 implies is_lower_hex(#[trigger] id@[i]) by {
            assert(id@[i] == uuid@[i]);
            assert(i != 8 && i != 13 && i != 18 && i != 23);
        }
    }
    id
}

/// A random short id, as used for participants and first tried for
/// sessions.
pub fn new_short_id() -> (id: String)
    ensures
        is_short_id(id@),
{
    let uuid = new_uuid_text();
    short_id(uuid.as_str())
}

/// The lowercase hexadecimal digit for `d` (for `d < 16`).
pub open spec fn hex_char(d: u32) -> char {
    if d < 10 {
        ((48 + d) as u8) as char
    } else {
        ((87 + d) as u8) as char
    }
}

/// The `k`-th hexadecimal digit of `n`, counted from the most significant
/// of its eight.
pub open spec fn nibble(n: u32, k: int) -> u32 {
    (n >> ((28 - 4 * k) as u32)) & 0xf
}

/// `n` as eight lowercase hexadecimal digits, with leading zeros.
pub open spec fn hex8(n: u32) -> Seq<char> {
    Seq::new(8, |k: int| hex_char(nibble(n, k)))
}

/// Eight hexadecimal digits are a short id, and different numbers give
/// different digits.
proof fn lemma_hex8(a: u32, b: u32)
    ensures
        is_short_id(hex8(a)),
        hex8(a) == hex8(b) ==> a == b,
{
    assert forall|k: int| 0 <= k < 8 implies nibble(a, k) < 16 by {
        let sh = (28 - 4 * k) as u32;
        assert((a >> sh) & 0xf < 16) by (bit_vector);
    }
    assert forall|k: int| 0 <= k < 8 implies nibble(b, k) < 16 by {
        let sh = (28 - 4 * k) as u32;
        assert((b >> sh) & 0xf < 16) by (bit_vector);
    }
    assert forall|i: int| 0 <= i < 8 implies is_lower_hex(#[trigger] hex8(a)[i]) by {
        assert(nibble(a, i) < 16);
    }
    if hex8(a) == hex8(b) {
        assert forall|k: int| 0 <= k < 8 implies nibble(a, k) == nibble(b, k) by {
            assert(hex8(a)[k] == hex8(b)[k]);
            assert(nibble(a, k) < 16 && nibble(b, k) < 16);
        }
        assert(nibble(a, 0) == nibble(b, 0));
        assert(nibble(a, 1) == nibble(b, 1));
        assert(nibble(a, 2) == nibble(b, 2));
        assert(nibble(a, 3) == nibble(b, 3));
        assert(nibble(a, 4) == nibble(b, 4));
        assert(nibble(a, 5) == nibble(b, 5));
        assert(nibble(a, 6) == nibble(b, 6));
        assert(nibble(a, 7) == nibble(b, 7));
        assert(a == b) by (bit_vector)
            requires
                (a >> 28u32) & 0xf == (b >> 28u32) & 0xf,
                (a >> 24u32) & 0xf == (b >> 24u32) & 0xf,
                (a >> 20u32) & 0xf == (b >> 20u32) & 0xf,
                (a >> 16u32) & 0xf == (b >> 16u32) & 0xf,
                (a >> 12u32) & 0xf == (b >> 12u32) & 0xf,
                (a >> 8u32) & 0xf == (b >> 8u32) & 0xf,
                (a >> 4u32) & 0xf == (b >> 4u32) & 0xf,
                (a >> 0u32) & 0xf == (b >> 0u32) & 0xf,
        ;
    }
}

/// Among the ids `hex8(0)`, ..., `hex8(i - 1)` one is missing from a set
/// that has fewer than `i` elements.
proof fn lemma_some_hex8_missing(ids: Set<Seq<char>>, i: int)
    requires
        ids.finite(),
        ids.len() < i <= 0x1_0000_0000,
    ensures
        exists|j: int| 0 <= j < i && !ids.contains(#[trigger] hex8(j as u32)),
{
    if forall|j: int| 0 <= j < i ==> ids.contains(#[trigger] hex8(j as u32)) {
        let f = |j: int| hex8(j as u32);
        let range = vstd::set_lib::set_int_range(0, i);
        vstd::set_lib::lemma_int_range(0, i);
        assert(vstd::relations::injective_on(f, range)) by {
            assert forall|x: int, y: int|
                range.contains(x) && range.contains(y) && #[trigger] f(x) == #[trigger] f(y) implies x == y by {
                lemma_hex8(x as u32, y as u32);
            }
        }
        vstd::set_lib::lemma_map_size(range, range.map(f), f);
        assert(range.map(f).subset_of(ids)) by {
            assert forall|s: Seq<char>| #[trigger] range.map(f).contains(s) implies ids.contains(s) by {
                let j = choose|j: int| range.contains(j) && f(j) == s;
                assert(ids.contains(hex8(j as u32)));
            }
        }
        vstd::set_lib::lemma_len_subset(range.map(f), ids);
    }
}

/// The text of `hex8(n)`.
fn hex8_text(n: u32) -> (s: String)
    ensures
        s@ == hex8(n),
{
    let mut s = String::new();
    let mut k: u32 = 0;
    while k < 8
        invariant
            k <= 8,
            s@ == hex8(n).take(k as int),
        decreases 8 - k,
    {
        let shift: u32 = 28 - 4 * k;
        let d: u32 = (n >> shift) & 0xf;
        assert(d < 16) by (bit_vector)
            requires
                d == (n >> shift) & 0xf,
        ;
        let b: u8 = if d < 10 {
            48u8 + (d as u8)
        } else {
            87u8 + (d as u8)
        };
        push_char(&mut s, b as char);
        proof {
            assert(d == nibble(n, k as int));
            assert(hex8(n).take(k as int + 1) =~= hex8(n).take(k as int).push(hex_char(d)));
        }
        k = k + 1;
    }
    proof {
        assert(hex8(n).take(8) =~= hex8(n));
    }
    s
}

/// More than a session's lifetime lies between `created` and `now`. (A
/// clock that reads earlier than the creation time counts as no time
/// passed.)
pub open spec fn lifetime_over(created: UnixTime, now: UnixTime) -> bool {
    now.nanos() > created.nanos() && now.nanos() - created.nanos() > SESSION_TTL_SECS * NANOS_PER_SEC
}

/// A session has expired when more than its lifetime has passed since it
/// was created.
pub open spec fn is_expired(s: Session, now: UnixTime) -> bool {
    lifetime_over(s.created_at, now)
}

/// The map holds the session `id` and it has not expired.
pub open spec fn is_live(m: Map<Seq<char>, Session>, id: Seq<char>, now: UnixTime) -> bool {
    m.dom().contains(id) && !is_expired(m[id], now)
}

/// Whether more than a session's lifetime lies between `created` and
/// `now`, to the nanosecond.
pub fn has_lifetime_passed(created: UnixTime, now: UnixTime) -> (r: bool)
    ensures
        r == lifetime_over(created, now),
{
    let c: u128 = (created.secs as u128) * 1_000_000_000u128 + (created.subsec_nanos as u128);
    let n: u128 = (now.secs as u128) * 1_000_000_000u128 + (now.subsec_nanos as u128);
    n > c && n - c > (SESSION_TTL_SECS as u128) * 1_000_000_000u128
}

/// The session map after a participant joined the session `id`.
pub open spec fn sessions_after_join(m: Map<Seq<char>, Session>, id: Seq<char>) -> Map<Seq<char>, Session> {
    m.insert(id, Session { state: state_after_join(m[id].state), ..m[id] })
}

/// The session map after a participant left the session `id`: the session
/// stays, even when nobody is left in it, so that its participants can
/// reconnect.
pub open spec fn sessions_after_leave(m: Map<Seq<char>, Session>, id: Seq<char>) -> Map<Seq<char>, Session> {
    m.insert(id, Session { state: state_after_leave(m[id].state), ..m[id] })
}

/// The session map once the reconnect grace period after the last leave is
/// over: the session is removed if it is still there, has not expired and
/// is still empty.
pub open spec fn sessions_after_grace(m: Map<Seq<char>, Session>, id: Seq<char>, now: UnixTime) -> Map<
    Seq<char>,
    Session,
> {
    if is_live(m, id, now) && m[id].state.participant_count == 0 {
        m.remove(id)
    } else {
        m
    }
}

/// The session map after a message from a client of the session `id`. The
/// connection holds on to its session, so the message reaches the state of
/// a session that has expired too.
pub open spec fn sessions_after_message(
    m: Map<Seq<char>, Session>,
    id: Seq<char>,
    msg: WsMessage,
) -> Map<Seq<char>, Session> {
    if m.dom().contains(id) {
        m.insert(id, Session { state: state_after_message(m[id].state, msg), ..m[id] })
    } else {
        m
    }
}

/// What a participant is told on joining: the channel to follow, the
/// announcement of the join to broadcast, and the state to send to the new
/// participant alone.
pub struct Joined {
    pub sender: Sender<WsMessage>,
    pub announcement: WsMessage,
    pub sync: WsMessage,
}

/// What a participant's leaving gives: the announcement to broadcast, and
/// whether the session is now empty, so that whether to remove it must be
/// decided once the reconnect grace period is over.
pub struct Left {
    pub announcement: WsMessage,
    pub check_after_grace: bool,
}

/// All sessions of the server, by id.
pub struct SessionStore {
    sessions: DashMap<String, Session>,
}

impl View for SessionStore {
    type V = Map<Seq<char>, Session>;

    closed spec fn view(&self) -> Map<Seq<char>, Session> {
        session_table(self.sessions)
    }
}

impl SessionStore {
    /// There are finitely many sessions, and every session is stored under
    /// its own id.
    pub open spec fn well_formed(&self) -> bool {
        &&& self@.dom().finite()
        &&& forall|k: Seq<char>| #[trigger] self@.dom().contains(k) ==> self@[k].id@ == k
    }

    /// A store without sessions.
    pub fn new() -> (s: SessionStore)
        ensures
            s@ == Map::<Seq<char>, Session>::empty(),
            s.well_formed(),
    {
        SessionStore { sessions: table_new() }
    }

    /// How many sessions the store holds (expired ones included).
    pub fn count(&self) -> (n: usize)
        ensures
            n == self@.len(),
    {
        table_len(&self.sessions)
    }

    /// A short id that no session of the store has, as long as the store
    /// holds fewer sessions than there are short ids: a random one when one
    /// of a few draws is free, else the first free one of `00000000`,
    /// `00000001`, ... .
    fn fresh_session_id(&self) -> (id: String)
        requires
            self.well_formed(),
        ensures
            is_short_id(id@),
            self@.len() < 0x1_0000_0000 ==> !self@.dom().contains(id@),
    {
        let mut attempt: u32 = 0;
        while attempt < RANDOM_ID_ATTEMPTS
            invariant
                attempt <= RANDOM_ID_ATTEMPTS,
            decreases RANDOM_ID_ATTEMPTS - attempt,
        {
            let id = new_short_id();
            if table_get(&self.sessions, id.as_str()).is_none() {
                return id;
            }
            attempt = attempt + 1;
        }
        let n = self.count();
        let mut i: u64 = 0;
        while i < 0x1_0000_0000 && i <= n as u64
            invariant
                self.well_formed(),
                n == self@.len(),
                i <= 0x1_0000_0000,
                forall|j: int| 0 <= j < i ==> self@.dom().contains(#[trigger] hex8(j as u32)),
            decreases 0x1_0000_0000 - i,
        {
            let id = hex8_text(i as u32);
            proof {
                lemma_hex8(i as u32, i as u32);
            }
            if table_get(&self.sessions, id.as_str()).is_none() {
                return id;
            }
            i = i + 1;
        }
        proof {
            if self@.len() < 0x1_0000_0000 {
                lemma_some_hex8_missing(self@.dom(), i as int);
            }
        }
        new_short_id()
    }

    /// Opens a session with a fresh short id, created at the given time,
    /// with the initial state, and returns its id. The id is one that no
    /// session of the store has (there are 16^8 short ids; the store would
    /// have to hold that many sessions for none to be left).
    pub fn create_session(&mut self, created_at: UnixTime) -> (id: String)
        requires
            old(self).well_formed(),
        ensures
            final(self).well_formed(),
            is_short_id(id@),
            old(self)@.len() < 0x1_0000_0000 ==> !old(self)@.dom().contains(id@),
            final(self)@.dom() == old(self)@.dom().insert(id@),
            final(self)@.remove(id@) == old(self)@.remove(id@),
            final(self)@[id@].id@ == id@,
            final(self)@[id@].created_at == created_at,
            final(self)@[id@].state == initial_state(),
            channel_capacity(final(self)@[id@].sender) == BROADCAST_CAPACITY,
    {
        let id = self.fresh_session_id();
        let sender = new_broadcast_sender(BROADCAST_CAPACITY);
        let session = Session {
            id: id.clone(),
            created_at,
            sender,
            state: SessionState::default(),
        };
        table_insert(&mut self.sessions, id.clone(), session);
        proof {
            assert(final(self)@.remove(id@) =~= old(self)@.remove(id@));
            reveal_with_fuel(power_of_two_at_least, 10);
        }
        id
    }

    /// The session with the given id, if there is one that has not expired
    /// at the given time.
    pub fn get_session(&self, id: &str, now: UnixTime) -> (r: Option<Session>)
        ensures
            r == (if is_live(self@, id@, now) {
                Some(self@[id@])
            } else {
                None
            }),
    {
        match table_get(&self.sessions, id) {
            Some(session) => {
                if has_lifetime_passed(session.created_at, now) {
                    None
                } else {
                    Some(session)
                }
            },
            None => None,
        }
    }

    /// Closes the session with the given id, if there is one.
    pub fn remove_session(&mut self, id: &str)
        requires
            old(self).well_formed(),
        ensures
            final(self).well_formed(),
            final(self)@ == old(self)@.remove(id@),
    {
        table_remove(&mut self.sessions, id);
    }

    /// Applies a creation request (its initial cut range) to the session
    /// with the given id, if there is one that has not expired.
    pub fn apply_create_request(&mut self, id: &str, req: &CreateSessionRequest, now: UnixTime)
        requires
            old(self).well_formed(),
        ensures
            final(self).well_formed(),
            final(self)@ == (if is_live(old(self)@, id@, now) {
                old(self)@.insert(id@, Session { state: state_with_request(old(self)@[id@].state, *req), ..old(self)@[id@] })
            } else {
                old(self)@
            }),
    {
        match self.get_session(id, now) {
            Some(session) => {
                let state = apply_create_request(session.state, req);
                proof {
                    assert(old(self)@.dom().contains(id@));
                }
                let key = session.id.clone();
                let updated = Session { state, ..session };
                table_insert(&mut self.sessions, key, updated);
            },
            None => {},
        }
    }

    /// Handles a session creation request at the given time: opens a
    /// session, applies the request's initial cut range to it, and answers
    /// `201 Created` with its id, its WebSocket path and its share link.
    pub fn create_session_for_request(
        &mut self,
        now: UnixTime,
        req: &CreateSessionRequest,
        frontend_url: &str,
    ) -> (r: (u16, CreateSessionResponse))
        requires
            old(self).well_formed(),
        ensures
            final(self).well_formed(),
            r.0 == STATUS_CREATED,
            is_short_id(r.1.session_id@),
            old(self)@.len() < 0x1_0000_0000 ==> !old(self)@.dom().contains(r.1.session_id@),
            r.1.ws_url@ == ws_url_of(r.1.session_id@),
            r.1.share_url@ == share_url_of(frontend_url@, r.1.session_id@),
            final(self)@.dom() == old(self)@.dom().insert(r.1.session_id@),
            final(self)@.remove(r.1.session_id@) == old(self)@.remove(r.1.session_id@),
            final(self)@[r.1.session_id@].id@ == r.1.session_id@,
            final(self)@[r.1.session_id@].created_at == now,
            final(self)@[r.1.session_id@].state == state_with_request(initial_state(), *req),
            channel_capacity(final(self)@[r.1.session_id@].sender) == BROADCAST_CAPACITY,
    {
        let id = self.create_session(now);
        self.apply_create_request(id.as_str(), req, now);
        proof {
            assert(final(self)@.remove(id@) =~= old(self)@.remove(id@));
        }
        (STATUS_CREATED, create_session_response(id, frontend_url))
    }

    /// Lets a participant join the session with the given id: counts the
    /// participant and returns the channel, the announcement to broadcast
    /// and the state to send to the newcomer. When there is no such session
    /// that has not expired, nothing changes and the error frame to send
    /// before closing the connection comes back.
    pub fn join(&mut self, id: &str, participant_id: String, now: UnixTime) -> (r: Result<Joined, WsMessage>)
        requires
            old(self).well_formed(),
            is_live(old(self)@, id@, now) ==> old(self)@[id@].state.participant_count < usize::MAX,
        ensures
            final(self).well_formed(),
            !is_live(old(self)@, id@, now) ==> {
                &&& final(self)@ == old(self)@
                &&& r matches Err(WsMessage::Error { code, message })
                &&& code@ == "SESSION_NOT_FOUND"@
                &&& message@ == not_found_text(id@)
            },
            is_live(old(self)@, id@, now) ==> {
                let s = state_after_join(old(self)@[id@].state);
                &&& final(self)@ == sessions_after_join(old(self)@, id@)
                &&& r == Ok::<Joined, WsMessage>(Joined {
                    sender: old(self)@[id@].sender,
                    announcement: WsMessage::ParticipantJoined {
                        participant_id: participant_id,
                        participant_count: s.participant_count,
                    },
                    sync: WsMessage::StateSync(shared_view(s)),
                })
            },
    {
        match self.get_session(id, now) {
            Some(session) => {
                let state = joined(session.state);
                let key = session.id.clone();
                let sender = session.sender.clone();
                let updated = Session { state, ..session };
                table_insert(&mut self.sessions, key, updated);
                let announcement = WsMessage::ParticipantJoined {
                    participant_id,
                    participant_count: state.participant_count,
                };
                let sync = WsMessage::StateSync(shared_state(state));
                Ok(Joined { sender, announcement, sync })
            },
            None => Err(session_not_found_frame(id)),
        }
    }

    /// Handles a message from the participant `participant_id` of the
    /// session with the given id: updates the session's state (while the
    /// session is in the store) and returns what to broadcast in answer, if
    /// anything.
    pub fn client_message(&mut self, id: &str, participant_id: &String, msg: &WsMessage) -> (out: Option<WsMessage>)
        requires
            old(self).well_formed(),
        ensures
            final(self).well_formed(),
            out == reply_for(*msg, *participant_id),
            final(self)@ == sessions_after_message(old(self)@, id@, *msg),
    {
        match table_get(&self.sessions, id) {
            Some(session) => {
                let state = apply_client_message(session.state, msg);
                proof {
                    assert(old(self)@.dom().contains(id@));
                }
                let key = session.id.clone();
                let updated = Session { state, ..session };
                table_insert(&mut self.sessions, key, updated);
            },
            None => {},
        }
        relay_reply(msg, participant_id)
    }

    /// Lets a participant leave the session with the given id: counts the
    /// participant out (never below zero) and returns the announcement to
    /// broadcast. The session stays; when it is now empty, `Left` says so,
    /// and `expire_if_empty` decides after the reconnect grace period.
    /// `None`, and no change, when there is no such session.
    pub fn leave(&mut self, id: &str, participant_id: String) -> (r: Option<Left>)
        requires
            old(self).well_formed(),
        ensures
            final(self).well_formed(),
            !old(self)@.dom().contains(id@) ==> r is None && final(self)@ == old(self)@,
            old(self)@.dom().contains(id@) ==> {
                let s = state_after_leave(old(self)@[id@].state);
                &&& final(self)@ == sessions_after_leave(old(self)@, id@)
                &&& r matches Some(l)
                &&& l.announcement == WsMessage::ParticipantLeft {
                    participant_id: participant_id,
                    participant_count: s.participant_count,
                }
                &&& l.check_after_grace == (s.participant_count == 0)
            },
    {
        match table_get(&self.sessions, id) {
            Some(session) => {
                let state = left(session.state);
                let count = state.participant_count;
                proof {
                    assert(old(self)@.dom().contains(id@));
                }
                let key = session.id.clone();
                let updated = Session { state, ..session };
                table_insert(&mut self.sessions, key, updated);
                Some(Left {
                    announcement: WsMessage::ParticipantLeft { participant_id, participant_count: count },
                    check_after_grace: count == 0,
                })
            },
            None => None,
        }
    }

    /// Once the reconnect grace period after the last participant left is
    /// over: removes the session if it is still there, has not expired and
    /// is still empty. Returns whether it was removed.
    pub fn expire_if_empty(&mut self, id: &str, now: UnixTime) -> (removed: bool)
        requires
            old(self).well_formed(),
        ensures
            final(self).well_formed(),
            removed == (is_live(old(self)@, id@, now) && old(self)@[id@].state.participant_count == 0),
            final(self)@ == sessions_after_grace(old(self)@, id@, now),
    {
        match self.get_session(id, now) {
            Some(session) => {
                if session.state.participant_count == 0 {
                    table_remove(&mut self.sessions, id);
                    true
                } else {
                    false
                }
            },
            None => false,
        }
    }

    /// The REST description of the session with the given id at the given
    /// time, or the not-found answer when there is no such session that has
    /// not expired.
    pub fn info(&self, id: String, now: UnixTime) -> (r: Result<SessionInfoResponse, ApiError>)
        ensures
            !is_live(self@, id@, now) ==> (r matches Err(e) && e.status == STATUS_NOT_FOUND
                && e.code@ == "SESSION_NOT_FOUND"@ && e.message@ == not_found_text(id@)),
            is_live(self@, id@, now) ==> (r matches Ok(info) && {
                &&& info.session_id == id
                &&& info.state == shared_view(self@[id@].state)
                &&& info.created_at_unix == self@[id@].created_at.secs
            }),
    {
        match self.get_session(id.as_str(), now) {
            Some(session) => Ok(session_info(id, session.state, session.created_at.secs)),
            None => Err(session_not_found(id.as_str())),
        }
    }
}

/// A participant who joins a session and leaves it again leaves the
/// sessions as they were.
pub proof fn law_join_then_leave_restores(m: Map<Seq<char>, Session>, id: Seq<char>)
    requires
        m.dom().contains(id),
        m[id].state.participant_count < usize::MAX,
    ensures
        sessions_after_leave(sessions_after_join(m, id), id) == m,
{
    assert(state_after_leave(state_after_join(m[id].state)) == m[id].state);
    assert(Session { state: m[id].state, ..m[id] } == m[id]);
    assert(sessions_after_leave(sessions_after_join(m, id), id) =~= m);
}

/// Leaving never closes a session, not even the last participant's
/// leaving, and touches no other session.
pub proof fn law_leave_keeps_session(m: Map<Seq<char>, Session>, id: Seq<char>)
    requires
        m.dom().contains(id),
    ensures
        sessions_after_leave(m, id).dom() == m.dom(),
        sessions_after_leave(m, id).remove(id) == m.remove(id),
{
    assert(sessions_after_leave(m, id).dom() =~= m.dom());
    assert(sessions_after_leave(m, id).remove(id) =~= m.remove(id));
}

/// After the grace period a session is removed exactly when it is still
/// live and still empty: a participant who reconnected in time keeps it.
/// No other session is touched.
pub proof fn law_grace_removes_only_empty(m: Map<Seq<char>, Session>, id: Seq<char>, now: UnixTime)
    ensures
        sessions_after_grace(m, id, now).dom().contains(id) <==> (m.dom().contains(id) && !(
        !is_expired(m[id], now) && m[id].state.participant_count == 0)),
        sessions_after_grace(m, id, now).remove(id) == m.remove(id),
        m.dom().contains(id) && m[id].state.participant_count > 0 ==> sessions_after_grace(m, id, now)
            == m,
{
    assert(sessions_after_grace(m, id, now).remove(id) =~= m.remove(id));
}

/// What a read of a session gives back after a client's trim update is the
/// range that update carried; other sessions are untouched.
pub proof fn law_trim_update_read_back(
    m: Map<Seq<char>, Session>,
    id: Seq<char>,
    participant_id: String,
    range: TrimRange,
)
    requires
        m.dom().contains(id),
    ensures
        ({
            let after = sessions_after_message(m, id, WsMessage::TrimUpdate { participant_id, range });
            &&& after.dom() == m.dom()
            &&& shared_view(after[id].state).trim_range == range
            &&& after.remove(id) == m.remove(id)
        }),
{
    let after = sessions_after_message(m, id, WsMessage::TrimUpdate { participant_id, range });
    assert(after.dom() =~= m.dom());
    assert(after.remove(id) =~= m.remove(id));
}

/// A join changes only the joined session's count, up by one: its id,
/// creation time, channel, playhead and cut range stay, and so does every
/// other session.
pub proof fn law_join_keeps_all_but_the_count(m: Map<Seq<char>, Session>, id: Seq<char>)
    requires
        m.dom().contains(id),
        m[id].state.participant_count < usize::MAX,
    ensures
        ({
            let after = sessions_after_join(m, id);
            &&& after.dom() == m.dom()
            &&& after.remove(id) == m.remove(id)
            &&& after[id].id == m[id].id
            &&& after[id].created_at == m[id].created_at
            &&& after[id].sender == m[id].sender
            &&& after[id].state.playhead_ms == m[id].state.playhead_ms
            &&& after[id].state.trim_start_ms == m[id].state.trim_start_ms
            &&& after[id].state.trim_end_ms == m[id].state.trim_end_ms
            &&& after[id].state.participant_count == m[id].state.participant_count + 1
        }),
{
    assert(sessions_after_join(m, id).dom() =~= m.dom());
    assert(sessions_after_join(m, id).remove(id) =~= m.remove(id));
}

/// A leave changes only the session's count: its id, creation time,
/// channel, playhead and cut range stay, and so does every other session.
pub proof fn law_leave_keeps_all_but_the_count(m: Map<Seq<char>, Session>, id: Seq<char>)
    requires
        m.dom().contains(id),
    ensures
        ({
            let after = sessions_after_leave(m, id);
            &&& after.dom() == m.dom()
            &&& after.remove(id) == m.remove(id)
            &&& after[id].id == m[id].id
            &&& after[id].created_at == m[id].created_at
            &&& after[id].sender == m[id].sender
            &&& after[id].state.playhead_ms == m[id].state.playhead_ms
            &&& after[id].state.trim_start_ms == m[id].state.trim_start_ms
            &&& after[id].state.trim_end_ms == m[id].state.trim_end_ms
            &&& after[id].state.participant_count == (if m[id].state.participant_count == 0 {
                0
            } else {
                m[id].state.participant_count - 1
            })
        }),
{
    assert(sessions_after_leave(m, id).dom() =~= m.dom());
    assert(sessions_after_leave(m, id).remove(id) =~= m.remove(id));
}

/// A client message changes only the stored state of its session, and of
/// it exactly what it carries: a timestamp update moves the playhead and
/// keeps the cut range, a trim update sets the cut range (start to start,
/// end to end) and keeps the playhead, no message changes the count, and
/// any other message changes nothing. Other sessions, and the session's
/// id, creation time and channel, stay.
pub proof fn law_message_changes_only_what_it_carries(
    m: Map<Seq<char>, Session>,
    id: Seq<char>,
    msg: WsMessage,
)
    ensures
        ({
            let after = sessions_after_message(m, id, msg);
            &&& after.dom() == m.dom()
            &&& after.remove(id) == m.remove(id)
            &&& m.dom().contains(id) ==> {
                &&& after[id].id == m[id].id
                &&& after[id].created_at == m[id].created_at
                &&& after[id].sender == m[id].sender
                &&& after[id].state.participant_count == m[id].state.participant_count
            }
            &&& (m.dom().contains(id) && msg is TimestampUpdate) ==> {
                &&& after[id].state.playhead_ms == msg->TimestampUpdate_playhead_ms
                &&& after[id].state.trim_start_ms == m[id].state.trim_start_ms
                &&& after[id].state.trim_end_ms == m[id].state.trim_end_ms
            }
            &&& (m.dom().contains(id) && msg is TrimUpdate) ==> {
                &&& after[id].state.playhead_ms == m[id].state.playhead_ms
                &&& after[id].state.trim_start_ms == msg->range.start_ms
                &&& after[id].state.trim_end_ms == msg->range.end_ms
            }
            &&& !(msg is TimestampUpdate || msg is TrimUpdate) ==> after == m
        }),
{
    let after = sessions_after_message(m, id, msg);
    assert(after.dom() =~= m.dom());
    assert(after.remove(id) =~= m.remove(id));
    if m.dom().contains(id) && !(msg is TimestampUpdate || msg is TrimUpdate) {
        assert(after =~= m);
    }
}

/// A session is live exactly while at most two hours (7,200 s, counted in
/// nanoseconds of the clock readings) have passed since its creation,
/// whatever its state: once more time has passed it is never found again,
/// not even with participants in it.
pub proof fn law_live_for_two_hours(m: Map<Seq<char>, Session>, id: Seq<char>, now: UnixTime)
    ensures
        ({
            let created = m[id].created_at;
            let elapsed = (now.secs * 1_000_000_000 + now.subsec_nanos) - (created.secs * 1_000_000_000
                + created.subsec_nanos);
            &&& is_live(m, id, now) <==> (m.dom().contains(id) && elapsed <= 7_200_000_000_000)
        }),
{
}

/// A session created for a request starts with the playhead at zero and
/// nobody in it, and with the requested cut range (start to start, end to
/// end) or none.
pub proof fn law_new_session_state(req: CreateSessionRequest)
    ensures
        ({
            let s = state_with_request(initial_state(), req);
            &&& s.playhead_ms == Millis { bits: 0 }
            &&& s.participant_count == 0
            &&& req.initial_trim_range matches Some(range) ==> s.trim_start_ms == range.start_ms
                && s.trim_end_ms == range.end_ms
            &&& req.initial_trim_range is None ==> s.trim_start_ms == Millis { bits: 0 }
                && s.trim_end_ms == Millis { bits: 0 }
        }),
{
}

} // verus!
