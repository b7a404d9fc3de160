//! What the library takes from other crates and from std, declared for the
//! verifier. Each item below is believed as stated, not proved: its doc
//! comment names the outside function and what is claimed of it.

use vstd::prelude::*;
use dashmap::DashMap;
use tokio::sync::broadcast::Sender;
use crate::protocol::WsMessage;
use crate::session::Session;

verus! {

/// `dashmap::DashMap`, the concurrent map that holds the server's sessions.
#[verifier::external_type_specification]
#[verifier::external_body]
#[verifier::reject_recursive_types(K)]
#[verifier::reject_recursive_types(V)]
#[verifier::reject_recursive_types(S)]
pub struct ExDashMap<K, V, S>(DashMap<K, V, S>);

/// `tokio::sync::broadcast::Sender`, the sending half of a session's
/// broadcast channel. The library only creates and carries it.
#[verifier::external_type_specification]
#[verifier::external_body]
#[verifier::reject_recursive_types(T)]
pub struct ExSender<T>(Sender<T>);

/// `Sender::clone` (tokio): a second handle on the same channel. The sender
/// holds only an `Arc` of the channel, which the clone shares; the contract
/// counts the clone as the same value.
pub assume_specification<T>[ <Sender<T> as Clone>::clone ](s: &Sender<T>) -> (r: Sender<T>)
    ensures
        r == *s,
;

/// What a session table holds: each session under the characters of its key.
pub uninterp spec fn session_table(m: DashMap<String, Session>) -> Map<Seq<char>, Session>;

/// `DashMap::new`: a map with no entries.
#[verifier::external_body]
pub(crate) fn table_new() -> (table: DashMap<String, Session>)
    ensures
        session_table(table) =~= Map::empty(),
{
    DashMap::new()
}

/// `DashMap::insert`: afterwards the key maps to the value, any earlier
/// value under an equal key is replaced, and no other entry changes. (The
/// real method takes `&self`; the wrapper takes `&mut` so that the change
/// is visible in the contract.) The replaced value, which the method hands
/// back, is dropped.
#[verifier::external_body]
pub(crate) fn table_insert(m: &mut DashMap<String, Session>, key: String, value: Session)
    ensures
        session_table(*final(m)) == session_table(*old(m)).insert(key@, value),
{
    m.insert(key, value);
}

/// `DashMap::get`, with the found entry cloned out of the guard: the value
/// stored under the key, or `None` when there is none. `Session`'s clone
/// copies the id and the state and clones the channel sender, which is a
/// second handle on the same channel (the sender holds only an `Arc` of the
/// channel); the contract counts it as the same value.
#[verifier::external_body]
pub(crate) fn table_get(m: &DashMap<String, Session>, key: &str) -> (r: Option<Session>)
    ensures
        r == (if session_table(*m).dom().contains(key@) {
            Some(session_table(*m)[key@])
        } else {
            None
        }),
{
    m.get(key).map(|entry| entry.value().clone())
}

/// `DashMap::remove`: afterwards the key maps to nothing and no other entry
/// changes. The removed pair, which the method hands back, is dropped.
#[verifier::external_body]
pub(crate) fn table_remove(m: &mut DashMap<String, Session>, key: &str)
    ensures
        session_table(*final(m)) == session_table(*old(m)).remove(key@),
{
    m.remove(key);
}

/// `DashMap::len`: the number of entries (the sum of the shards' lengths).
#[verifier::external_body]
pub(crate) fn table_len(m: &DashMap<String, Session>) -> (n: usize)
    ensures
        n == session_table(*m).len(),
{
    m.len()
}

/// `c` is a lowercase hexadecimal digit.
pub open spec fn is_lower_hex(c: char) -> bool {
    ('0' <= c && c <= '9') || ('a' <= c && c <= 'f')
}

/// The hyphenated lowercase form of a UUID: 36 characters, hyphens at
/// positions 8, 13, 18 and 23, lowercase hexadecimal digits elsewhere.
pub open spec fn is_hyphenated_uuid(s: Seq<char>) -> bool {
    &&& s.len() == 36
    &&& forall|i: int|
        0 <= i < 36 ==> if i == 8 || i == 13 || i == 18 || i == 23 {
            #[trigger] s[i] == '-'
        } else {
            is_lower_hex(s[i])
        }
}

/// `uuid::Uuid::new_v4()` rendered with `to_string()`. The UUID is random;
/// what holds of every outcome is its text form: `Display` for `Uuid` goes
/// to `LowerHex` of the hyphenated form, which writes 32 lowercase hex
/// digits in groups of 8-4-4-4-12 joined by hyphens.
#[verifier::external_body]
pub(crate) fn new_uuid_text() -> (s: String)
    ensures
        is_hyphenated_uuid(s@),
{
    uuid::Uuid::new_v4().to_string()
}

/// How many messages a broadcast channel keeps for a receiver that falls
/// behind (the limit it was made with).
pub uninterp spec fn channel_capacity(s: Sender<WsMessage>) -> nat;

/// The smallest power of two that is at least `n` (and 1 for 0).
pub open spec fn power_of_two_at_least(n: nat) -> nat
    decreases n,
{
    if n <= 1 {
        1
    } else {
        2 * power_of_two_at_least(((n + 1) / 2) as nat)
    }
}

/// `tokio::sync::broadcast::channel(capacity)`, keeping the sender and
/// dropping the first receiver. The channel panics on a capacity of zero or
/// above `usize::MAX / 2`, which `requires` leaves out; it rounds the
/// capacity up to a power of two (so `channel(3)` keeps 4 messages). Nothing
/// else is stated of the sender: the library carries it and does not look
/// inside.
#[verifier::external_body]
pub(crate) fn new_broadcast_sender(capacity: usize) -> (s: Sender<WsMessage>)
    requires
        0 < capacity <= usize::MAX / 2,
    ensures
        channel_capacity(s) == power_of_two_at_least(capacity as nat),
{
    let (sender, _receiver) = tokio::sync::broadcast::channel(capacity);
    sender
}

/// `String::push`: the character is appended.
#[verifier::external_body]
pub(crate) fn push_char(s: &mut String, c: char)
    ensures
        final(s)@ == old(s)@.push(c),
{
    s.push(c);
}

} // verus!
