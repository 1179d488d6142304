//! The registry of connected peers.

use dashmap::DashMap;
use std::sync::Arc;
use tokio::sync::mpsc::{Receiver, Sender};
use vstd::prelude::*;
use vstd::string::*;
use crate::error::ChatError;
use super::fanout::{
    advanced, broadcast_from, moves_on, settled, Delivery, FanOut, FanOutView, Progress,
};
use super::mailbox::{
    another_sender, mailbox_limit, open_mailbox, share, try_send, SendOutcome, MAX_MESSAGES,
};
use super::message::Message;
use super::registry::{
    empty_store, listing, lists, name_taken, names_wf, nobody, recipients, registered,
    registration, store, withdraw, ConnectionId, Entry,
};
use super::user::Peer;

verus! {

/// One of the first `upto` pairs is about connection `id`.
spec fn among(pairs: Seq<(ConnectionId, String)>, upto: int, id: ConnectionId) -> bool {
    exists|k: int| 0 <= k < upto && (#[trigger] pairs[k]).0 == id
}

/// The registry: for every registered connection its user name and the
/// sending end of its mailbox.
pub struct State {
    peers: DashMap<ConnectionId, Entry>,
}

impl View for State {
    type V = Map<ConnectionId, Seq<char>>;

    /// The user names of the registered connections, by connection.
    closed spec fn view(&self) -> Map<ConnectionId, Seq<char>> {
        registered(self.peers)
    }
}

impl State {
    /// Every registered name is valid and belongs to one connection only.
    pub open spec fn wf(&self) -> bool {
        names_wf(self@)
    }

    /// A registry without connections.
    pub fn new() -> (state: Self)
        ensures
            state@ == nobody(),
            state.wf(),
    {
        State { peers: empty_store() }
    }

    /// Whether some registered connection holds exactly this name.
    pub fn is_username_taken(&self, username: &str) -> (taken: bool)
        ensures
            taken == name_taken(self@, username@),
    {
        let wanted = String::from_str(username);
        let pairs = listing(&self.peers);
        let mut i: usize = 0;
        while i < pairs.len()
            invariant
                i <= pairs.len(),
                wanted@ == username@,
                lists(pairs@, self@),
                forall|k: int| 0 <= k < i ==> (#[trigger] pairs@[k]).1@ != username@,
            decreases pairs.len() - i,
        {
            if pairs[i].1 == wanted {
                return true;
            }
            i += 1;
        }
        assert(!name_taken(self@, username@)) by {
            if name_taken(self@, username@) {
                let id = choose|id: ConnectionId|
                    self@.contains_key(id) && #[trigger] self@[id] == username@;
                let k = choose|k: int| 0 <= k < pairs@.len() && (#[trigger] pairs@[k]).0 == id;
                assert(pairs@[k].1@ != username@);
            }
        }
        false
    }

    /// Registers connection `id` under `username` and opens its mailbox.
    ///
    /// The name is refused with `InvalidUsername` when it breaks the name
    /// rule and with `UsernameTaken` when a registered connection holds it;
    /// the registry is then left as it was. Otherwise the connection is
    /// entered, in place of an earlier entry of the same `id` if there was
    /// one, and the receiving end of its new mailbox is returned.
    pub fn add(&mut self, id: ConnectionId, username: String) -> (outcome: Result<
        (Peer, Receiver<Arc<Message>>),
        ChatError,
    >)
        requires
            old(self).wf(),
        ensures
            final(self).wf(),
            match registration(old(self)@, id, username@) {
                Ok(names) => outcome is Ok && final(self)@ == names
                    && outcome->Ok_0.0.username@ == username@
                    && mailbox_limit(outcome->Ok_0.1) == MAX_MESSAGES,
                Err(fault) => outcome is Err && outcome->Err_0 == fault && final(self)@ == old(
                    self,
                )@,
            },
    {
        let peer = match Peer::new(username.as_str()) {
            Ok(peer) => peer,
            Err(fault) => {
                return Err(fault);
            },
        };
        if self.is_username_taken(username.as_str()) {
            return Err(ChatError::UsernameTaken);
        }
        let (sender, receiver) = open_mailbox(MAX_MESSAGES);
        store(&mut self.peers, id, Entry { username, sender });
        Ok((peer, receiver))
    }

    /// Removes the entry of connection `id`, and says whether there was one.
    /// Removing a connection that is not registered changes nothing.
    pub fn unregister(&mut self, id: ConnectionId) -> (was_registered: bool)
        requires
            old(self).wf(),
        ensures
            final(self).wf(),
            final(self)@ == old(self)@.remove(id),
            was_registered == old(self)@.contains_key(id),
    {
        withdraw(&mut self.peers, id).is_some()
    }

    /// A handle on the mailbox of connection `id`, if it is registered. The
    /// server waits on it for room while a broadcast is blocked.
    pub fn mailbox(&mut self, id: ConnectionId) -> (handle: Option<Sender<Arc<Message>>>)
        requires
            old(self).wf(),
        ensures
            final(self).wf(),
            final(self)@ == old(self)@,
            handle is Some <==> old(self)@.contains_key(id),
    {
        match withdraw(&mut self.peers, id) {
            Some(entry) => {
                let handle = another_sender(&entry.sender);
                store(&mut self.peers, id, entry);
                assert(self@ =~= old(self)@);
                Some(handle)
            },
            None => {
                assert(self@ =~= old(self)@);
                None
            },
        }
    }

    /// Prepares a broadcast of `message` from `origin`: its targets are all
    /// registered connections but `origin`, each once. Nothing is sent yet.
    pub fn start_broadcast(&self, origin: ConnectionId, message: Arc<Message>) -> (fan: FanOut)
        ensures
            fan@.origin == origin,
            fan@.message == message@,
            fan@.log.len() == 0,
            fan@.targets.to_set() == recipients(self@, origin),
            fan@.wf(),
    {
        let pairs = listing(&self.peers);
        let mut targets: Vec<ConnectionId> = Vec::new();
        let mut i: usize = 0;
        while i < pairs.len()
            invariant
                i <= pairs.len(),
                lists(pairs@, self@),
                targets@.no_duplicates(),
                !targets@.contains(origin),
                forall|t: int|
                    0 <= t < targets@.len() ==> among(pairs@, i as int, #[trigger] targets@[t]),
                forall|k: int|
                    0 <= k < i && (#[trigger] pairs@[k]).0 != origin ==> targets@.contains(
                        pairs@[k].0,
                    ),
            decreases pairs.len() - i,
        {
            let id = pairs[i].0;
            if id != origin {
                let ghost before = targets@;
                targets.push(id);
                assert forall|k: int|
                    0 <= k < i + 1 && (#[trigger] pairs@[k]).0 != origin implies targets@.contains(
                    pairs@[k].0,
                ) by {
                    if k < i {
                        let t = choose|t: int| 0 <= t < before.len() && before[t] == pairs@[k].0;
                        assert(targets@[t] == pairs@[k].0);
                    } else {
                        assert(targets@[before.len() as int] == id);
                    }
                }
            }
            i += 1;
        }
        assert(targets@.to_set() =~= recipients(self@, origin)) by {
            assert forall|id: ConnectionId|
                recipients(self@, origin).contains(id) implies targets@.contains(id) by {
                let k = choose|k: int| 0 <= k < pairs@.len() && (#[trigger] pairs@[k]).0 == id;
            }
        }
        FanOut::start(origin, message, targets)
    }

    /// Offers `message` to the mailbox of `target` without waiting. Returns
    /// what the mailbox answered, or `None` when `target` is not registered.
    /// The registry is the same afterwards, whatever the answer.
    fn offer(&mut self, target: ConnectionId, message: &Arc<Message>) -> (outcome: Option<
        SendOutcome,
    >)
        requires
            old(self).wf(),
        ensures
            final(self).wf(),
            final(self)@ == old(self)@,
            outcome is None <==> !old(self)@.contains_key(target),
    {
        match withdraw(&mut self.peers, target) {
            Some(entry) => {
                let outcome = try_send(&entry.sender, share(message));
                store(&mut self.peers, target, entry);
                assert(self@ =~= old(self)@);
                Some(outcome)
            },
            None => {
                assert(self@ =~= old(self)@);
                None
            },
        }
    }

    /// Takes note of the answer that the mailbox of the next target of `fan`
    /// gave, and says whether the broadcast moves on.
    ///
    /// A full mailbox changes nothing and stops the broadcast. A closed one
    /// evicts its connection. `None` stands for a target that is not
    /// registered any more.
    pub fn settle(&mut self, fan: &mut FanOut, outcome: Option<SendOutcome>) -> (go_on: bool)
        requires
            old(self).wf(),
            old(fan)@.wf(),
        ensures
            final(self).wf(),
            final(fan)@.wf(),
            (final(self)@, final(fan)@) == settled(old(self)@, old(fan)@, outcome),
            go_on == moves_on(old(fan)@, outcome),
    {
        let target = match fan.next_target() {
            Some(target) => target,
            None => {
                return false;
            },
        };
        match outcome {
            Some(SendOutcome::Full) => false,
            Some(SendOutcome::Queued) => {
                fan.record(Delivery::Delivered);
                true
            },
            Some(SendOutcome::Closed) => {
                self.unregister(target);
                fan.record(Delivery::Evicted);
                true
            },
            None => {
                fan.record(Delivery::Skipped);
                true
            },
        }
    }

    /// Takes a broadcast up where it stands and visits target after target
    /// until all are served or one of them has a full mailbox.
    ///
    /// Each target is offered the message once. A target whose mailbox is
    /// closed is evicted and the broadcast goes on; a target that is no
    /// longer registered is passed over. In front of a full mailbox the
    /// broadcast stops: nothing is lost, and a later call goes on from there.
    pub fn advance(&mut self, fan: &mut FanOut) -> (progress: Progress)
        requires
            old(self).wf(),
            old(fan)@.wf(),
        ensures
            final(self).wf(),
            final(fan)@.wf(),
            advanced(old(self)@, old(fan)@, final(self)@, final(fan)@, progress),
    {
        let ghost names0 = self@;
        let ghost fan0 = fan@;
        let ghost from = fan@.log.len() as int;
        loop
            invariant
                self.wf(),
                fan@.wf(),
                names0 == old(self)@,
                fan0 == old(fan)@,
                fan0.wf(),
                from == fan0.log.len(),
                fan@.origin == fan0.origin,
                fan@.message == fan0.message,
                fan@.targets == fan0.targets,
                from <= fan@.log.len() <= fan@.targets.len(),
                fan@.log.take(from) == fan0.log,
                forall|i: int|
                    from <= i < fan@.log.len() ==> (#[trigger] fan@.log[i] == Delivery::Skipped
                        <==> !names0.contains_key(fan@.targets[i])),
                self@ == names0.remove_keys(fan@.evicted_since(from)),
            decreases fan@.targets.len() - fan@.log.len(),
        {
            let target = match fan.next_target() {
                Some(target) => target,
                None => {
                    return Progress::Finished;
                },
            };
            let ghost before = fan@;
            let outcome = self.offer(target, fan.message());
            if !self.settle(fan, outcome) {
                return Progress::Blocked(target);
            }
            proof {
                let delivery = fan@.log.last();
                assert(fan@.log =~= before.log.push(delivery));
                before.evictions_after_logging(delivery, from);
                assert(self@ =~= names0.remove_keys(fan@.evicted_since(from)));
            }
        }
    }

    /// Sends `message` to every registered connection but `origin`.
    ///
    /// The targets are visited one after the other, in no particular order.
    /// A target that cannot be reached any more is evicted, and the others
    /// still get the message. Where a target's mailbox is full the
    /// broadcast stops in front of it; [`State::advance`] takes it up again.
    pub fn broadcast(&mut self, origin: ConnectionId, message: Arc<Message>) -> (sent: (
        FanOut,
        Progress,
    ))
        requires
            old(self).wf(),
        ensures
            final(self).wf(),
            broadcast_from(old(self)@, origin, message@, final(self)@, sent.0@, sent.1),
    {
        let mut fan = self.start_broadcast(origin, message);
        let ghost fan0 = fan@;
        let progress = self.advance(&mut fan);
        assert(fan0 == (FanOutView { log: Seq::empty(), ..fan@ })) by {
            assert(fan0.log =~= Seq::empty());
        }
        (fan, progress)
    }

    /// The registered connections with their user names, each once, in no
    /// particular order.
    pub fn usernames(&self) -> (pairs: Vec<(ConnectionId, String)>)
        ensures
            lists(pairs@, self@),
    {
        listing(&self.peers)
    }
}

impl Default for State {
    fn default() -> (state: Self)
        ensures
            state@ == nobody(),
            state.wf(),
    {
        State::new()
    }
}

} // verus!
