//! The bounded outbound queue of one connection.
//!
//! The queue is a `tokio` channel. Its sending end is kept by the registry,
//! its receiving end is handed to the task that writes to the connection.
//! This module declares the two ends and wraps the calls made on them.

use std::sync::Arc;
use tokio::sync::mpsc::error::TrySendError;
use tokio::sync::mpsc::{Receiver, Sender};
use vstd::prelude::*;
use super::message::Message;

verus! {

/// The sending end of a `tokio` channel. The verifier sees nothing inside.
#[verifier::external_type_specification]
#[verifier::external_body]
#[verifier::reject_recursive_types(T)]
pub struct ExSender<T>(tokio::sync::mpsc::Sender<T>);

/// The receiving end of a `tokio` channel. The verifier sees nothing inside.
#[verifier::external_type_specification]
#[verifier::external_body]
#[verifier::reject_recursive_types(T)]
pub struct ExReceiver<T>(tokio::sync::mpsc::Receiver<T>);

/// Number of messages a mailbox holds before senders have to wait.
pub const MAX_MESSAGES: usize = 128;

/// What became of one attempt to put a message into a mailbox.
#[derive(Debug, Clone, Copy, PartialEq, Eq, Structural)]
pub enum SendOutcome {
    /// The message is in the mailbox.
    Queued,
    /// The mailbox holds as many messages as it can, and its reader is alive.
    Full,
    /// The reader of the mailbox is gone.
    Closed,
}

/// The number of messages the channel behind `receiver` was made to hold:
/// what `tokio::sync::mpsc::Receiver::max_capacity` returns for it.
pub uninterp spec fn mailbox_limit(receiver: Receiver<Arc<Message>>) -> nat;

/// Calls `tokio::sync::mpsc::channel`, which makes an empty channel bounded
/// by `capacity` and returns its two ends. The contract claims that the
/// channel reports that bound as its limit. The call panics on a capacity of
/// zero or above `usize::MAX >> 3`; the precondition rules both out.
#[verifier::external_body]
pub(crate) fn open_mailbox(capacity: usize) -> (ends: (
    Sender<Arc<Message>>,
    Receiver<Arc<Message>>,
))
    requires
        0 < capacity <= 0x1fff_ffff,
    ensures
        mailbox_limit(ends.1) == capacity,
{
    tokio::sync::mpsc::channel(capacity)
}

/// Calls `tokio::sync::mpsc::Sender::try_send`, which never waits. The
/// answer depends on how full the channel is and on whether its reader still
/// exists, so the contract promises nothing about it.
#[verifier::external_body]
pub(crate) fn try_send(sender: &Sender<Arc<Message>>, message: Arc<Message>) -> (outcome:
    SendOutcome) {
    match sender.try_send(message) {
        Ok(()) => SendOutcome::Queued,
        Err(TrySendError::Full(_)) => SendOutcome::Full,
        Err(TrySendError::Closed(_)) => SendOutcome::Closed,
    }
}

/// Calls `Clone::clone` of `tokio::sync::mpsc::Sender`, which makes one more
/// handle on the same channel. Nothing is claimed of the handle.
#[verifier::external_body]
pub(crate) fn another_sender(sender: &Sender<Arc<Message>>) -> (handle: Sender<Arc<Message>>) {
    sender.clone()
}

/// Calls `Clone::clone` of `std::sync::Arc`, which makes one more pointer to
/// the same message. The contract claims that both point to equal values.
#[verifier::external_body]
pub(crate) fn share(message: &Arc<Message>) -> (copy: Arc<Message>)
    ensures
        copy == *message,
{
    Arc::clone(message)
}

} // verus!
