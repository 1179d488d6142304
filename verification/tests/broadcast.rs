use chat_relay::server::fanout::{Delivery, FanOut, Progress};
use chat_relay::server::mailbox::{SendOutcome, MAX_MESSAGES};
use chat_relay::server::message::Message;
use chat_relay::server::state::State;
use std::sync::Arc;
use tokio::sync::mpsc::Receiver;

fn join(state: &mut State, id: u64, name: &str) -> Receiver<Arc<Message>> {
    state.add(id, name.to_string()).unwrap().1
}

fn chat(sender: &str, content: &str) -> Arc<Message> {
    Arc::new(Message::new_chat(sender, content))
}

fn next_line(outbound: &mut Receiver<Arc<Message>>) -> Option<String> {
    outbound.try_recv().ok().map(|message| message.to_string())
}

fn fate_of(fan: &FanOut, id: u64) -> Option<Delivery> {
    let at = fan.targets().iter().position(|target| *target == id)?;
    fan.log().get(at).copied()
}

fn sorted(ids: &[u64]) -> Vec<u64> {
    let mut ids = ids.to_vec();
    ids.sort();
    ids
}

fn registered_ids(state: &State) -> Vec<u64> {
    let mut ids: Vec<u64> = state.usernames().into_iter().map(|pair| pair.0).collect();
    ids.sort();
    ids
}

#[test]
fn broadcast_reaches_everybody_but_the_origin() {
    let mut state = State::new();
    let mut alice = join(&mut state, 1, "alice");
    let mut bob = join(&mut state, 2, "bob");
    let mut carol = join(&mut state, 3, "carol");
    let (fan, progress) = state.broadcast(2, chat("bob", "hello"));
    assert_eq!(progress, Progress::Finished);
    assert_eq!(fan.origin(), 2);
    assert_eq!(sorted(fan.targets()), vec![1, 3]);
    assert_eq!(fan.log(), &vec![Delivery::Delivered, Delivery::Delivered]);
    assert_eq!(next_line(&mut alice), Some("bob: hello".to_string()));
    assert_eq!(next_line(&mut carol), Some("bob: hello".to_string()));
    assert_eq!(next_line(&mut bob), None);
    assert_eq!(next_line(&mut alice), None);
    assert_eq!(next_line(&mut carol), None);
}

#[test]
fn broadcast_in_an_empty_room_does_nothing() {
    let mut state = State::new();
    let (fan, progress) = state.broadcast(1, chat("ghost", "anyone?"));
    assert_eq!(progress, Progress::Finished);
    assert!(fan.targets().is_empty());
    assert!(fan.log().is_empty());
    assert_eq!(fan.next_target(), None);
}

#[test]
fn broadcast_of_the_only_member_reaches_nobody() {
    let mut state = State::new();
    let mut alice = join(&mut state, 1, "alice");
    let (fan, progress) = state.broadcast(1, chat("alice", "hello?"));
    assert_eq!(progress, Progress::Finished);
    assert!(fan.targets().is_empty());
    assert_eq!(next_line(&mut alice), None);
    assert_eq!(registered_ids(&state), vec![1]);
}

#[test]
fn origin_need_not_be_registered() {
    let mut state = State::new();
    let mut alice = join(&mut state, 1, "alice");
    let (fan, progress) = state.broadcast(9, chat("nobody", "hi"));
    assert_eq!(progress, Progress::Finished);
    assert_eq!(fan.targets(), &vec![1]);
    assert_eq!(next_line(&mut alice), Some("nobody: hi".to_string()));
}

#[test]
fn one_message_is_shared_by_all_mailboxes() {
    let mut state = State::new();
    let mut alice = join(&mut state, 1, "alice");
    let _bob = join(&mut state, 2, "bob");
    let mut carol = join(&mut state, 3, "carol");
    let message = chat("bob", "hello");
    let (fan, _progress) = state.broadcast(2, message.clone());
    let at_alice = alice.try_recv().unwrap();
    let at_carol = carol.try_recv().unwrap();
    assert!(Arc::ptr_eq(&at_alice, &message));
    assert!(Arc::ptr_eq(&at_carol, &message));
    assert!(Arc::ptr_eq(fan.message(), &message));
}

#[test]
fn start_broadcast_lists_the_targets_and_sends_nothing() {
    let mut state = State::new();
    let mut alice = join(&mut state, 1, "alice");
    let _bob = join(&mut state, 2, "bob");
    let fan = state.start_broadcast(2, chat("bob", "hello"));
    assert_eq!(fan.origin(), 2);
    assert_eq!(fan.targets(), &vec![1]);
    assert!(fan.log().is_empty());
    assert_eq!(fan.next_target(), Some(1));
    assert_eq!(**fan.message(), Message::new_chat("bob", "hello"));
    assert_eq!(next_line(&mut alice), None);
}

#[test]
fn mailbox_hands_messages_out_in_the_order_they_came() {
    let mut state = State::new();
    let mut alice = join(&mut state, 1, "alice");
    let _bob = join(&mut state, 2, "bob");
    let _carol = join(&mut state, 3, "carol");
    state.broadcast(2, chat("bob", "one"));
    state.broadcast(3, chat("carol", "two"));
    state.broadcast(2, chat("bob", "three"));
    assert_eq!(next_line(&mut alice), Some("bob: one".to_string()));
    assert_eq!(next_line(&mut alice), Some("carol: two".to_string()));
    assert_eq!(next_line(&mut alice), Some("bob: three".to_string()));
    assert_eq!(next_line(&mut alice), None);
}

#[test]
fn target_without_reader_is_evicted_and_the_rest_is_served() {
    let mut state = State::new();
    let alice = join(&mut state, 1, "alice");
    let _bob = join(&mut state, 2, "bob");
    let mut carol = join(&mut state, 3, "carol");
    drop(alice);
    let (fan, progress) = state.broadcast(2, chat("bob", "hello"));
    assert_eq!(progress, Progress::Finished);
    assert_eq!(fate_of(&fan, 1), Some(Delivery::Evicted));
    assert_eq!(fate_of(&fan, 3), Some(Delivery::Delivered));
    assert_eq!(registered_ids(&state), vec![2, 3]);
    assert!(!state.is_username_taken("alice"));
    assert_eq!(next_line(&mut carol), Some("bob: hello".to_string()));
}

#[test]
fn eviction_announces_nothing() {
    let mut state = State::new();
    let alice = join(&mut state, 1, "alice");
    let mut bob = join(&mut state, 2, "bob");
    let mut carol = join(&mut state, 3, "carol");
    drop(alice);
    state.broadcast(2, chat("bob", "hello"));
    assert_eq!(next_line(&mut carol), Some("bob: hello".to_string()));
    assert_eq!(next_line(&mut carol), None);
    assert_eq!(next_line(&mut bob), None);
}

#[test]
fn evicted_target_with_a_closed_reader_loses_its_entry_too() {
    let mut state = State::new();
    let mut alice = join(&mut state, 1, "alice");
    let _bob = join(&mut state, 2, "bob");
    alice.close();
    let (fan, progress) = state.broadcast(2, chat("bob", "hello"));
    assert_eq!(progress, Progress::Finished);
    assert_eq!(fan.log(), &vec![Delivery::Evicted]);
    assert_eq!(registered_ids(&state), vec![2]);
    assert_eq!(next_line(&mut alice), None);
}

#[test]
fn mailbox_takes_128_messages_and_then_blocks_the_broadcast() {
    let mut state = State::new();
    let alice = join(&mut state, 1, "alice");
    let _bob = join(&mut state, 2, "bob");
    for n in 0..MAX_MESSAGES {
        let (_fan, progress) = state.broadcast(2, chat("bob", &format!("line {}", n)));
        assert_eq!(progress, Progress::Finished);
    }
    assert_eq!(alice.len(), 128);
    let (fan, progress) = state.broadcast(2, chat("bob", "one too many"));
    assert_eq!(progress, Progress::Blocked(1));
    assert_eq!(fan.next_target(), Some(1));
    assert!(fan.log().is_empty());
    assert_eq!(alice.len(), 128);
    assert_eq!(registered_ids(&state), vec![1, 2]);
}

#[test]
fn blocked_broadcast_goes_on_once_there_is_room() {
    let mut state = State::new();
    let mut alice = join(&mut state, 1, "alice");
    let _bob = join(&mut state, 2, "bob");
    for n in 0..MAX_MESSAGES {
        state.broadcast(2, chat("bob", &format!("line {}", n)));
    }
    let (mut fan, progress) = state.broadcast(2, chat("bob", "late"));
    assert_eq!(progress, Progress::Blocked(1));
    assert_eq!(state.advance(&mut fan), Progress::Blocked(1));
    assert_eq!(next_line(&mut alice), Some("bob: line 0".to_string()));
    assert_eq!(state.advance(&mut fan), Progress::Finished);
    assert_eq!(fan.log(), &vec![Delivery::Delivered]);
    assert_eq!(alice.len(), 128);
    for n in 1..MAX_MESSAGES {
        assert_eq!(next_line(&mut alice), Some(format!("bob: line {}", n)));
    }
    assert_eq!(next_line(&mut alice), Some("bob: late".to_string()));
    assert_eq!(next_line(&mut alice), None);
    assert_eq!(state.advance(&mut fan), Progress::Finished);
    assert_eq!(fan.log(), &vec![Delivery::Delivered]);
    assert_eq!(next_line(&mut alice), None);
}

#[test]
fn full_mailbox_whose_reader_exits_is_evicted_instead_of_waited_for() {
    let mut state = State::new();
    let alice = join(&mut state, 1, "alice");
    let _bob = join(&mut state, 2, "bob");
    for n in 0..MAX_MESSAGES {
        state.broadcast(2, chat("bob", &format!("line {}", n)));
    }
    let (mut fan, progress) = state.broadcast(2, chat("bob", "late"));
    assert_eq!(progress, Progress::Blocked(1));
    drop(alice);
    assert_eq!(state.advance(&mut fan), Progress::Finished);
    assert_eq!(fan.log(), &vec![Delivery::Evicted]);
    assert_eq!(registered_ids(&state), vec![2]);
}

#[test]
fn slow_target_holds_up_those_after_it() {
    let mut state = State::new();
    let mut alice = join(&mut state, 1, "alice");
    let _bob = join(&mut state, 2, "bob");
    let mut carol = join(&mut state, 3, "carol");
    for n in 0..MAX_MESSAGES {
        state.broadcast(2, chat("bob", &format!("line {}", n)));
    }
    let (mut fan, progress) = state.broadcast(2, chat("bob", "late"));
    let first = fan.targets()[0];
    let second = fan.targets()[1];
    assert_eq!(progress, Progress::Blocked(first));
    assert!(fan.log().is_empty());
    assert_eq!(alice.len(), 128);
    assert_eq!(carol.len(), 128);
    let (waiting, other) = if first == 1 {
        (&mut alice, &mut carol)
    } else {
        (&mut carol, &mut alice)
    };
    waiting.try_recv().unwrap();
    assert_eq!(state.advance(&mut fan), Progress::Blocked(second));
    assert_eq!(fan.log(), &vec![Delivery::Delivered]);
    assert_eq!(waiting.len(), 128);
    assert_eq!(other.len(), 128);
    other.try_recv().unwrap();
    assert_eq!(state.advance(&mut fan), Progress::Finished);
    assert_eq!(fan.log(), &vec![Delivery::Delivered, Delivery::Delivered]);
}

#[test]
fn broadcast_under_way_passes_over_a_connection_that_left() {
    let mut state = State::new();
    let mut alice = join(&mut state, 1, "alice");
    let _bob = join(&mut state, 2, "bob");
    let mut carol = join(&mut state, 3, "carol");
    for n in 0..MAX_MESSAGES {
        state.broadcast(2, chat("bob", &format!("line {}", n)));
    }
    let (mut fan, progress) = state.broadcast(2, chat("bob", "late"));
    let first = fan.targets()[0];
    let second = fan.targets()[1];
    assert_eq!(progress, Progress::Blocked(first));
    assert!(state.unregister(second));
    let (waiting, gone) = if first == 1 {
        (&mut alice, &mut carol)
    } else {
        (&mut carol, &mut alice)
    };
    waiting.try_recv().unwrap();
    assert_eq!(state.advance(&mut fan), Progress::Finished);
    assert_eq!(fan.log(), &vec![Delivery::Delivered, Delivery::Skipped]);
    assert_eq!(gone.len(), 128);
    assert_eq!(registered_ids(&state), sorted(&[2, first]));
}

#[test]
fn after_a_clean_leave_no_broadcast_reaches_the_mailbox() {
    let mut state = State::new();
    let mut alice = join(&mut state, 1, "alice");
    let _bob = join(&mut state, 2, "bob");
    let mut carol = join(&mut state, 3, "carol");
    assert!(state.unregister(1));
    let (fan, progress) = state.broadcast(2, chat("bob", "hello"));
    assert_eq!(progress, Progress::Finished);
    assert_eq!(fan.targets(), &vec![3]);
    assert_eq!(next_line(&mut alice), None);
    assert_eq!(next_line(&mut carol), Some("bob: hello".to_string()));
    let mut newcomer = join(&mut state, 4, "alice");
    state.broadcast(2, chat("bob", "welcome back"));
    assert_eq!(next_line(&mut newcomer), Some("bob: welcome back".to_string()));
    assert_eq!(next_line(&mut alice), None);
}

#[test]
fn settle_records_a_queued_message_as_delivered() {
    let mut state = State::new();
    let _alice = join(&mut state, 1, "alice");
    let mut fan = state.start_broadcast(2, chat("bob", "hello"));
    assert!(state.settle(&mut fan, Some(SendOutcome::Queued)));
    assert_eq!(fan.log(), &vec![Delivery::Delivered]);
    assert_eq!(fan.next_target(), None);
    assert_eq!(registered_ids(&state), vec![1]);
}

#[test]
fn settle_waits_in_front_of_a_full_mailbox() {
    let mut state = State::new();
    let _alice = join(&mut state, 1, "alice");
    let mut fan = state.start_broadcast(2, chat("bob", "hello"));
    assert!(!state.settle(&mut fan, Some(SendOutcome::Full)));
    assert!(fan.log().is_empty());
    assert_eq!(fan.next_target(), Some(1));
    assert_eq!(registered_ids(&state), vec![1]);
}

#[test]
fn settle_evicts_the_owner_of_a_closed_mailbox() {
    let mut state = State::new();
    let _alice = join(&mut state, 1, "alice");
    let _carol = join(&mut state, 3, "carol");
    let mut fan = state.start_broadcast(2, chat("bob", "hello"));
    let first = fan.targets()[0];
    assert!(state.settle(&mut fan, Some(SendOutcome::Closed)));
    assert_eq!(fan.log(), &vec![Delivery::Evicted]);
    let other = if first == 1 { 3 } else { 1 };
    assert_eq!(registered_ids(&state), vec![other]);
}

#[test]
fn settle_passes_over_an_unregistered_target() {
    let mut state = State::new();
    let _alice = join(&mut state, 1, "alice");
    let mut fan = state.start_broadcast(2, chat("bob", "hello"));
    state.unregister(1);
    assert!(state.settle(&mut fan, None));
    assert_eq!(fan.log(), &vec![Delivery::Skipped]);
    assert!(state.usernames().is_empty());
}

#[test]
fn settle_takes_no_answer_once_all_targets_are_visited() {
    let mut state = State::new();
    let _alice = join(&mut state, 1, "alice");
    let (mut fan, progress) = state.broadcast(2, chat("bob", "hello"));
    assert_eq!(progress, Progress::Finished);
    assert!(!state.settle(&mut fan, Some(SendOutcome::Closed)));
    assert!(!state.settle(&mut fan, Some(SendOutcome::Queued)));
    assert!(!state.settle(&mut fan, None));
    assert_eq!(fan.log(), &vec![Delivery::Delivered]);
    assert_eq!(registered_ids(&state), vec![1]);
}

#[test]
fn advance_of_a_finished_broadcast_changes_nothing() {
    let mut state = State::new();
    let mut alice = join(&mut state, 1, "alice");
    let (mut fan, _progress) = state.broadcast(2, chat("bob", "hello"));
    assert_eq!(state.advance(&mut fan), Progress::Finished);
    assert_eq!(fan.log(), &vec![Delivery::Delivered]);
    assert_eq!(alice.len(), 1);
    assert_eq!(next_line(&mut alice), Some("bob: hello".to_string()));
}
