//! What holds of the room whatever its users do.
//!
//! Each lemma speaks of the same mathematical functions as the contracts of
//! the registry and of the connection handler, so it holds of everything
//! they do.

use vstd::prelude::*;
use crate::error::ChatError;
use super::fanout::{advanced, broadcast_from, moves_on, settled, Delivery, FanOutView, Progress};
use super::mailbox::SendOutcome;
use super::message::MessageView;
use super::network::{handled, Inbound, Phase, SessionView, Step};
use super::registry::{name_taken, names_wf, registration, ConnectionId};
use super::user::valid_username;

verus! {

/// A valid name that no registered connection holds is registered, and the
/// directory then has it under the new connection and is otherwise the same.
pub proof fn free_valid_name_is_registered(
    names: Map<ConnectionId, Seq<char>>,
    id: ConnectionId,
    username: Seq<char>,
)
    requires
        valid_username(username),
        !name_taken(names, username),
    ensures
        registration(names, id, username) matches Ok(after) && after == names.insert(
            id,
            username,
        ),
{
}

/// A valid name that a registered connection holds is refused as taken.
pub proof fn taken_name_is_refused(
    names: Map<ConnectionId, Seq<char>>,
    id: ConnectionId,
    username: Seq<char>,
)
    requires
        valid_username(username),
        name_taken(names, username),
    ensures
        registration(names, id, username) matches Err(fault) && fault
            == ChatError::UsernameTaken,
{
}

/// A name that breaks the name rule is refused as invalid, whoever is
/// registered.
pub proof fn invalid_name_is_refused(
    names: Map<ConnectionId, Seq<char>>,
    id: ConnectionId,
    username: Seq<char>,
)
    requires
        !valid_username(username),
    ensures
        registration(names, id, username) matches Err(fault) && fault
            == ChatError::InvalidUsername,
{
}

/// Registering keeps the directory sound: all names valid, none held twice.
pub proof fn registration_keeps_names_sound(
    names: Map<ConnectionId, Seq<char>>,
    id: ConnectionId,
    username: Seq<char>,
)
    requires
        names_wf(names),
    ensures
        registration(names, id, username) matches Ok(after) ==> names_wf(after),
{
}

/// Taking a connection out keeps the directory sound.
pub proof fn removal_keeps_names_sound(names: Map<ConnectionId, Seq<char>>, id: ConnectionId)
    requires
        names_wf(names),
    ensures
        names_wf(names.remove(id)),
{
}

/// Of two registrations of the same name, one after the other, the second is
/// refused as taken if the first went through: a name never has two holders.
pub proof fn same_name_has_one_winner(
    names: Map<ConnectionId, Seq<char>>,
    first: ConnectionId,
    second: ConnectionId,
    username: Seq<char>,
)
    ensures
        registration(names, first, username) matches Ok(after) ==> (registration(
            after,
            second,
            username,
        ) matches Err(fault) && fault == ChatError::UsernameTaken),
{
    if registration(names, first, username) is Ok {
        let after = names.insert(first, username);
        assert(after.contains_key(first) && after[first] == username);
    }
}

/// A broadcast never reaches the mailbox of the connection it comes from:
/// the origin is not among the targets, so no record of the log is about it,
/// and the broadcast does not take it out of the registry.
pub proof fn origin_is_never_served(
    names0: Map<ConnectionId, Seq<char>>,
    origin: ConnectionId,
    message: MessageView,
    names1: Map<ConnectionId, Seq<char>>,
    fan: FanOutView,
    progress: Progress,
)
    requires
        broadcast_from(names0, origin, message, names1, fan, progress),
    ensures
        forall|i: int| 0 <= i < fan.targets.len() ==> #[trigger] fan.targets[i] != origin,
        names1.contains_key(origin) == names0.contains_key(origin),
{
    if fan.evicted_since(0).contains(origin) {
        let i = choose|i: int|
            0 <= i < fan.log.len() && i < fan.targets.len() && #[trigger] fan.targets[i] == origin
                && fan.log[i] == Delivery::Evicted;
        assert(fan.targets.contains(origin));
    }
}

/// A broadcast only ever takes connections out of the registry, and only
/// targets whose mailbox was closed. Everybody else keeps entry and name.
pub proof fn broadcast_only_evicts(
    names0: Map<ConnectionId, Seq<char>>,
    fan0: FanOutView,
    names1: Map<ConnectionId, Seq<char>>,
    fan1: FanOutView,
    progress: Progress,
    id: ConnectionId,
)
    requires
        advanced(names0, fan0, names1, fan1, progress),
    ensures
        names1.contains_key(id) ==> names0.contains_key(id) && names1[id] == names0[id],
        names0.contains_key(id) && !names1.contains_key(id) ==> exists|i: int|
            fan0.log.len() <= i < fan1.log.len() && #[trigger] fan1.targets[i] == id && fan1.log[i]
                == Delivery::Evicted,
{
}

/// Once a connection has left the registry, no broadcast that sets out
/// afterwards has it as a target, wherever it comes from.
pub proof fn departed_is_no_target(
    names: Map<ConnectionId, Seq<char>>,
    departed: ConnectionId,
    origin: ConnectionId,
    message: MessageView,
    names1: Map<ConnectionId, Seq<char>>,
    fan: FanOutView,
    progress: Progress,
)
    requires
        broadcast_from(names.remove(departed), origin, message, names1, fan, progress),
    ensures
        !fan.targets.contains(departed),
{
    if fan.targets.contains(departed) {
        assert(fan.targets.to_set().contains(departed));
    }
}

/// A broadcast that was under way when a connection left passes that
/// connection over: its mailbox is not offered the message.
pub proof fn departed_is_passed_over(
    names0: Map<ConnectionId, Seq<char>>,
    fan0: FanOutView,
    names1: Map<ConnectionId, Seq<char>>,
    fan1: FanOutView,
    progress: Progress,
    i: int,
)
    requires
        advanced(names0, fan0, names1, fan1, progress),
        fan0.log.len() <= i < fan1.log.len(),
        !names0.contains_key(fan1.targets[i]),
    ensures
        fan1.log[i] == Delivery::Skipped,
{
}

/// The name of a connection that has left is free again: any connection may
/// register it.
pub proof fn name_of_departed_is_free(
    names: Map<ConnectionId, Seq<char>>,
    departed: ConnectionId,
    newcomer: ConnectionId,
)
    requires
        names_wf(names),
        names.contains_key(departed),
    ensures
        registration(names.remove(departed), newcomer, names[departed]) matches Ok(after)
            && after == names.remove(departed).insert(newcomer, names[departed]),
{
    let after = names.remove(departed);
    if name_taken(after, names[departed]) {
        let other = choose|id: ConnectionId|
            after.contains_key(id) && #[trigger] after[id] == names[departed];
        assert(names[other] == names[departed] && other != departed);
    }
}

/// In front of a full mailbox a broadcast waits: neither the registry nor
/// the broadcast changes, so the target keeps its entry and no message is
/// dropped or put in beyond the mailbox's limit.
pub proof fn full_mailbox_makes_broadcast_wait(
    names: Map<ConnectionId, Seq<char>>,
    fan: FanOutView,
)
    ensures
        settled(names, fan, Some(SendOutcome::Full)) == (names, fan),
        !moves_on(fan, Some(SendOutcome::Full)),
{
}

/// A mailbox whose reader is gone costs its connection the entry, and the
/// broadcast moves on to the next target instead of waiting for ever.
pub proof fn closed_mailbox_evicts_its_connection(
    names: Map<ConnectionId, Seq<char>>,
    fan: FanOutView,
)
    requires
        !fan.finished(),
    ensures
        settled(names, fan, Some(SendOutcome::Closed)).0 == names.remove(fan.next()),
        settled(names, fan, Some(SendOutcome::Closed)).1.log == fan.log.push(Delivery::Evicted),
        moves_on(fan, Some(SendOutcome::Closed)),
{
}

/// A connection whose name is refused leaves no trace: the registry is as
/// it was, no broadcast is started, and the session is over.
pub proof fn refused_connection_leaves_no_trace(
    session0: SessionView,
    names0: Map<ConnectionId, Seq<char>>,
    name: String,
    session1: SessionView,
    names1: Map<ConnectionId, Seq<char>>,
    step: Step,
)
    requires
        session0.phase == Phase::AwaitingUsername,
        registration(names0, session0.id, name@) is Err,
        handled(session0, names0, Inbound::Line(name), session1, names1, step),
    ensures
        names1 == names0,
        step matches Step::Rejected(fault) && (registration(names0, session0.id, name@) matches Err(
            refusal,
        ) && refusal == fault),
        session1.phase == Phase::Terminated,
{
}

/// A connection that leaves is out of the registry before its leaving is
/// announced, so the notice never goes to its own mailbox.
pub proof fn leaving_connection_misses_its_own_notice(
    session0: SessionView,
    names0: Map<ConnectionId, Seq<char>>,
    input: Inbound,
    session1: SessionView,
    names1: Map<ConnectionId, Seq<char>>,
    step: Step,
)
    requires
        session0.phase == Phase::Active,
        !(input is Line),
        handled(session0, names0, input, session1, names1, step),
    ensures
        step matches Step::Departed(fan, _) && !fan@.targets.contains(session0.id),
        !names1.contains_key(session0.id),
        session1.phase == Phase::Terminated,
{
    match step {
        Step::Departed(fan, progress) => {
            broadcast_only_evicts(
                names0.remove(session0.id),
                FanOutView { log: Seq::empty(), ..fan@ },
                names1,
                fan@,
                progress,
                session0.id,
            );
        },
        _ => {},
    }
}

} // verus!
