//! The directory of registered connections, as a mathematical map, and the
//! concurrent map that stores it.
//!
//! The store is a `dashmap::DashMap`. It is only ever changed through an
//! exclusive reference, so what it holds is a plain function of its value.

use dashmap::DashMap;
use std::sync::Arc;
use tokio::sync::mpsc::Sender;
use vstd::prelude::*;
use crate::error::ChatError;
use super::message::Message;
use super::user::valid_username;

verus! {

/// Identity of one live connection. The server gives every accepted
/// connection a number of its own.
pub type ConnectionId = u64;

/// What the registry keeps for one connection: the name it chose and the
/// sending end of its mailbox.
pub struct Entry {
    pub(crate) username: String,
    pub(crate) sender: Sender<Arc<Message>>,
}

/// The concurrent map of `dashmap`. The verifier sees nothing inside.
#[verifier::external_type_specification]
#[verifier::external_body]
#[verifier::reject_recursive_types(K)]
#[verifier::reject_recursive_types(V)]
#[verifier::reject_recursive_types(S)]
pub struct ExDashMap<K, V, S>(dashmap::DashMap<K, V, S>);

/// The names held in `peers`, by connection: one pair for every key of the
/// map, made of the key and the user name stored under it.
pub uninterp spec fn registered(peers: DashMap<u64, Entry>) -> Map<u64, Seq<char>>;

/// The directory in which nobody is registered.
pub open spec fn nobody() -> Map<ConnectionId, Seq<char>> {
    Map::empty()
}

/// Some registered connection holds exactly this name.
pub open spec fn name_taken(names: Map<ConnectionId, Seq<char>>, username: Seq<char>) -> bool {
    exists|id: ConnectionId| names.contains_key(id) && #[trigger] names[id] == username
}

/// Every registered name is valid, and no name is held by two connections.
pub open spec fn names_wf(names: Map<ConnectionId, Seq<char>>) -> bool {
    &&& forall|id: ConnectionId| names.contains_key(id) ==> valid_username(#[trigger] names[id])
    &&& forall|a: ConnectionId, b: ConnectionId|
        names.contains_key(a) && names.contains_key(b) && #[trigger] names[a] == #[trigger] names[b]
            ==> a == b
}

/// What registering `username` for connection `id` does to the directory:
/// the new directory, or the fault that leaves it as it was.
pub open spec fn registration(
    names: Map<ConnectionId, Seq<char>>,
    id: ConnectionId,
    username: Seq<char>,
) -> Result<Map<ConnectionId, Seq<char>>, ChatError> {
    if !valid_username(username) {
        Err(ChatError::InvalidUsername)
    } else if name_taken(names, username) {
        Err(ChatError::UsernameTaken)
    } else {
        Ok(names.insert(id, username))
    }
}

/// The connections a message from `origin` goes to: everybody else.
pub open spec fn recipients(names: Map<ConnectionId, Seq<char>>, origin: ConnectionId) -> Set<
    ConnectionId,
> {
    names.dom().remove(origin)
}

/// `pairs` names every registered connection exactly once, each with the
/// user name it holds. The order of the pairs is not determined.
pub open spec fn lists(
    pairs: Seq<(ConnectionId, String)>,
    names: Map<ConnectionId, Seq<char>>,
) -> bool {
    &&& forall|i: int|
        0 <= i < pairs.len() ==> names.contains_key((#[trigger] pairs[i]).0) && names[pairs[i].0]
            == pairs[i].1@
    &&& forall|id: ConnectionId|
        names.contains_key(id) ==> exists|i: int|
            0 <= i < pairs.len() && (#[trigger] pairs[i]).0 == id
    &&& forall|i: int, j: int|
        0 <= i < j < pairs.len() ==> (#[trigger] pairs[i]).0 != (#[trigger] pairs[j]).0
}

/// Calls `DashMap::new`, which makes a map without entries.
#[verifier::external_body]
pub(crate) fn empty_store() -> (peers: DashMap<ConnectionId, Entry>)
    ensures
        registered(peers) == nobody(),
{
    DashMap::new()
}

/// Calls `DashMap::insert`, which stores the value under the key and drops
/// the value that was there before, if any. No other key is touched.
#[verifier::external_body]
pub(crate) fn store(peers: &mut DashMap<ConnectionId, Entry>, id: ConnectionId, entry: Entry)
    ensures
        registered(*final(peers)) == registered(*old(peers)).insert(id, entry.username@),
{
    peers.insert(id, entry);
}

/// Calls `DashMap::remove`, which takes the entry of the key out of the map
/// and returns it, or returns nothing when the key has no entry. No other
/// key is touched.
#[verifier::external_body]
pub(crate) fn withdraw(peers: &mut DashMap<ConnectionId, Entry>, id: ConnectionId) -> (entry:
    Option<Entry>)
    ensures
        registered(*final(peers)) == registered(*old(peers)).remove(id),
        entry is Some <==> registered(*old(peers)).contains_key(id),
        entry is Some ==> entry->Some_0.username@ == registered(*old(peers))[id],
{
    peers.remove(&id).map(|pair| pair.1)
}

/// Walks the map with `DashMap::iter` and copies out, for every entry, its
/// key and its user name. The iterator visits each entry once, shard by
/// shard, in no order that could be stated.
#[verifier::external_body]
pub(crate) fn listing(peers: &DashMap<ConnectionId, Entry>) -> (pairs: Vec<(ConnectionId, String)>)
    ensures
        lists(pairs@, registered(*peers)),
{
    let mut pairs = Vec::new();
    for item in peers.iter() {
        pairs.push((*item.key(), item.value().username.clone()));
    }
    pairs
}

} // verus!
