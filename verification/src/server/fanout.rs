//! One broadcast on its way through the room.
//!
//! A broadcast visits its targets one after the other. Putting a message
//! into a full mailbox would mean waiting, which this library never does:
//! the broadcast stops in front of that target and is taken up again later.
//! A [`FanOut`] is what is kept in between: the targets in visiting order
//! and what became of those already visited.

use std::sync::Arc;
use vstd::prelude::*;
use super::mailbox::SendOutcome;
use super::message::{Message, MessageView};
use super::registry::{recipients, ConnectionId};

verus! {

/// What became of one target of a broadcast.
#[derive(Debug, Clone, Copy, PartialEq, Eq, Structural)]
pub enum Delivery {
    /// The message is in the target's mailbox.
    Delivered,
    /// The reader of the target's mailbox was gone; the target was removed
    /// from the registry.
    Evicted,
    /// The target was no longer registered when its turn came.
    Skipped,
}

/// How far a broadcast has come.
#[derive(Debug, Clone, Copy, PartialEq, Eq, Structural)]
pub enum Progress {
    /// Every target has been visited.
    Finished,
    /// The mailbox of this target is full and its reader is alive. The
    /// broadcast goes on with this target once there is room.
    Blocked(ConnectionId),
}

/// A broadcast in progress.
pub struct FanOut {
    origin: ConnectionId,
    message: Arc<Message>,
    targets: Vec<ConnectionId>,
    log: Vec<Delivery>,
}

/// The mathematical value of a [`FanOut`].
pub struct FanOutView {
    /// The connection the message comes from.
    pub origin: ConnectionId,
    /// The message.
    pub message: MessageView,
    /// The targets, in the order in which they are visited.
    pub targets: Seq<ConnectionId>,
    /// What became of the targets visited so far: `log[i]` is about
    /// `targets[i]`.
    pub log: Seq<Delivery>,
}

impl FanOutView {
    /// No target is visited twice, the origin is not a target, and the log
    /// is not longer than the list of targets.
    pub open spec fn wf(self) -> bool {
        &&& self.log.len() <= self.targets.len()
        &&& self.targets.no_duplicates()
        &&& !self.targets.contains(self.origin)
    }

    /// Every target has been visited.
    pub open spec fn finished(self) -> bool {
        self.log.len() >= self.targets.len()
    }

    /// The target whose turn it is.
    pub open spec fn next(self) -> ConnectionId
        recommends
            !self.finished(),
    {
        self.targets[self.log.len() as int]
    }

    /// This broadcast after the target whose turn it is got `delivery`.
    pub open spec fn logged(self, delivery: Delivery) -> FanOutView {
        FanOutView { log: self.log.push(delivery), ..self }
    }

    /// The targets that were evicted at the visits numbered `from` and up.
    pub open spec fn evicted_since(self, from: int) -> Set<ConnectionId> {
        Set::new(
            |id: ConnectionId|
                exists|i: int|
                    from <= i < self.log.len() && i < self.targets.len()
                        && #[trigger] self.targets[i] == id && self.log[i] == Delivery::Evicted,
        )
    }

    /// Recording what became of the next target makes it one of the evicted
    /// targets exactly if it was evicted, and it was none of them before.
    pub proof fn evictions_after_logging(self, delivery: Delivery, from: int)
        requires
            self.wf(),
            !self.finished(),
            0 <= from <= self.log.len(),
        ensures
            !self.evicted_since(from).contains(self.next()),
            self.logged(delivery).evicted_since(from) == if delivery == Delivery::Evicted {
                self.evicted_since(from).insert(self.next())
            } else {
                self.evicted_since(from)
            },
    {
        let after = self.logged(delivery);
        let at = self.log.len() as int;
        assert(after.targets[at] == self.next() && after.log[at] == delivery);
        assert forall|id: ConnectionId|
            self.evicted_since(from).contains(id) implies after.evicted_since(from).contains(id)
            && id != self.next() by {
            let i = choose|i: int|
                from <= i < self.log.len() && i < self.targets.len() && #[trigger] self.targets[i]
                    == id && self.log[i] == Delivery::Evicted;
            assert(after.targets[i] == id && after.log[i] == Delivery::Evicted);
        }
        if delivery == Delivery::Evicted {
            assert(after.evicted_since(from) =~= self.evicted_since(from).insert(self.next()));
        } else {
            assert(after.evicted_since(from) =~= self.evicted_since(from));
        }
    }
}

/// What one answer of a mailbox does to the registry and to the broadcast
/// that asked. `outcome` is the answer of the mailbox of the target whose
/// turn it is, or `None` when that target is not registered.
///
/// A full mailbox changes nothing: the broadcast waits in front of it. A
/// closed mailbox removes its connection from the registry. In every other
/// case the registry stays as it is and the broadcast moves on. A broadcast
/// that has visited every target takes no answer.
pub open spec fn settled(
    names: Map<ConnectionId, Seq<char>>,
    fan: FanOutView,
    outcome: Option<SendOutcome>,
) -> (Map<ConnectionId, Seq<char>>, FanOutView) {
    if fan.finished() {
        (names, fan)
    } else {
        match outcome {
            Some(SendOutcome::Full) => (names, fan),
            Some(SendOutcome::Queued) => (names, fan.logged(Delivery::Delivered)),
            Some(SendOutcome::Closed) => (names.remove(fan.next()), fan.logged(Delivery::Evicted)),
            None => (names, fan.logged(Delivery::Skipped)),
        }
    }
}

/// Whether a broadcast moves on after an answer: it does unless it has
/// visited every target already or stands in front of a full mailbox.
pub open spec fn moves_on(fan: FanOutView, outcome: Option<SendOutcome>) -> bool {
    !fan.finished() && outcome != Some(SendOutcome::Full)
}

/// How the registry and a broadcast stand after the broadcast was taken up
/// at (`names0`, `fan0`) and went on until it stopped with `progress`.
///
/// Origin, message and targets are the same. The log has grown at its end,
/// by one record for every target visited. A visited target is recorded as
/// skipped exactly if it was not registered; of the others, those whose
/// mailbox was closed are recorded as evicted and are gone from the
/// registry, which is otherwise unchanged. The broadcast either visited
/// every target or stands in front of a registered target.
pub open spec fn advanced(
    names0: Map<ConnectionId, Seq<char>>,
    fan0: FanOutView,
    names1: Map<ConnectionId, Seq<char>>,
    fan1: FanOutView,
    progress: Progress,
) -> bool {
    &&& fan1.origin == fan0.origin
    &&& fan1.message == fan0.message
    &&& fan1.targets == fan0.targets
    &&& fan0.log.len() <= fan1.log.len() <= fan1.targets.len()
    &&& fan1.log.take(fan0.log.len() as int) == fan0.log
    &&& forall|i: int|
        fan0.log.len() <= i < fan1.log.len() ==> (#[trigger] fan1.log[i] == Delivery::Skipped
            <==> !names0.contains_key(fan1.targets[i]))
    &&& names1 == names0.remove_keys(fan1.evicted_since(fan0.log.len() as int))
    &&& match progress {
        Progress::Finished => fan1.finished(),
        Progress::Blocked(target) => !fan1.finished() && target == fan1.next()
            && names1.contains_key(target),
    }
}

/// How the registry and the broadcast of `message` from `origin` stand
/// after the broadcast set out in a room with the names `names0` and went on
/// until it stopped with `progress`.
///
/// The targets are the connections registered at the start, without the
/// origin and each once; the rest is as [`advanced`] says of a broadcast
/// that has visited nobody yet.
pub open spec fn broadcast_from(
    names0: Map<ConnectionId, Seq<char>>,
    origin: ConnectionId,
    message: MessageView,
    names1: Map<ConnectionId, Seq<char>>,
    fan: FanOutView,
    progress: Progress,
) -> bool {
    &&& fan.origin == origin
    &&& fan.message == message
    &&& fan.wf()
    &&& fan.targets.to_set() == recipients(names0, origin)
    &&& advanced(names0, FanOutView { log: Seq::empty(), ..fan }, names1, fan, progress)
}

impl View for FanOut {
    type V = FanOutView;

    closed spec fn view(&self) -> FanOutView {
        FanOutView {
            origin: self.origin,
            message: self.message@,
            targets: self.targets@,
            log: self.log@,
        }
    }
}

impl FanOut {
    /// A broadcast of `message` from `origin` that has visited nobody yet.
    pub(crate) fn start(
        origin: ConnectionId,
        message: Arc<Message>,
        targets: Vec<ConnectionId>,
    ) -> (fan: Self)
        ensures
            fan@ == (FanOutView {
                origin,
                message: message@,
                targets: targets@,
                log: Seq::empty(),
            }),
    {
        FanOut { origin, message, targets, log: Vec::new() }
    }

    /// The connection the message comes from.
    pub fn origin(&self) -> (origin: ConnectionId)
        ensures
            origin == self@.origin,
    {
        self.origin
    }

    /// The message that is broadcast.
    pub fn message(&self) -> (message: &Arc<Message>)
        ensures
            message@ == self@.message,
    {
        &self.message
    }

    /// The targets, in the order in which they are visited.
    pub fn targets(&self) -> (targets: &Vec<ConnectionId>)
        ensures
            targets@ == self@.targets,
    {
        &self.targets
    }

    /// What became of the targets visited so far.
    pub fn log(&self) -> (log: &Vec<Delivery>)
        ensures
            log@ == self@.log,
    {
        &self.log
    }

    /// The target whose turn it is, if any is left.
    pub fn next_target(&self) -> (target: Option<ConnectionId>)
        ensures
            match target {
                Some(id) => !self@.finished() && id == self@.next(),
                None => self@.finished(),
            },
    {
        if self.log.len() < self.targets.len() {
            Some(self.targets[self.log.len()])
        } else {
            None
        }
    }

    /// Records what became of the target whose turn it is.
    pub(crate) fn record(&mut self, delivery: Delivery)
        ensures
            final(self)@ == old(self)@.logged(delivery),
    {
        self.log.push(delivery);
    }
}

} // verus!
