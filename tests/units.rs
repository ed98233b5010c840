use actor_core::envelope::Envelope;
use actor_core::error::ActorError;
use actor_core::lifecycle::{default_stopping, supervised_stopping, ActorState, StopCause, Stopping};
use actor_core::mailbox::{Mailbox, Received};
use actor_core::run_loop::{ActorCore, Step};
use tokio::sync::oneshot;

#[test]
fn mailbox_is_fifo() {
    let mut m: Mailbox<u32> = Mailbox::new();
    assert_eq!(m.try_send(1), Ok(()));
    m.do_send(2);
    assert_eq!(m.try_send(3), Ok(()));
    assert_eq!(m.len(), 3);
    assert!(matches!(m.recv(), Received::Message(1)));
    assert!(matches!(m.recv(), Received::Message(2)));
    assert!(matches!(m.recv(), Received::Message(3)));
    assert!(matches!(m.recv(), Received::Pending));
}

#[test]
fn mailbox_closes_after_last_strong_handle_and_drain() {
    let mut m: Mailbox<u32> = Mailbox::new();
    m.clone_strong();
    assert_eq!(m.strong_count(), 2);
    m.do_send(9);
    m.release_strong();
    m.release_strong();
    assert_eq!(m.strong_count(), 0);
    assert!(matches!(m.recv(), Received::Message(9)));
    assert!(matches!(m.recv(), Received::Closed));
    assert!(matches!(m.recv(), Received::Closed));
}

#[test]
fn upgrade_needs_a_live_strong_handle() {
    let mut m: Mailbox<u32> = Mailbox::new();
    assert!(m.upgrade());
    assert_eq!(m.strong_count(), 2);
    m.release_strong();
    m.release_strong();
    assert!(!m.upgrade());
    assert_eq!(m.strong_count(), 0);
    m.mint_strong();
    assert_eq!(m.strong_count(), 1);
    assert!(m.upgrade());
}

#[test]
fn closed_mailbox_refuses_and_returns_undelivered() {
    let mut m: Mailbox<u32> = Mailbox::new();
    m.do_send(4);
    m.do_send(5);
    assert_eq!(m.close(), vec![4, 5]);
    assert!(!m.is_open());
    assert_eq!(m.len(), 0);
    assert_eq!(m.try_send(6), Err(ActorError::CannotSend));
    m.do_send(7);
    assert_eq!(m.len(), 0);
}

#[test]
fn envelope_message_taken_once() {
    let (tx, _rx) = oneshot::channel::<u8>();
    let mut e = Envelope::new(11u32, tx);
    assert_eq!(e.take_message(), Some(11));
    assert_eq!(e.take_message(), None);
}

#[test]
fn envelope_reply_reaches_waiting_caller_once() {
    let (tx, mut rx) = oneshot::channel::<u8>();
    let mut e = Envelope::new((), tx);
    assert!(e.reply(42));
    assert_eq!(rx.try_recv(), Ok(42));
    assert!(!e.reply(43));
}

#[test]
fn envelope_reply_to_departed_caller_is_no_op() {
    let (tx, rx) = oneshot::channel::<u8>();
    drop(rx);
    let mut e = Envelope::new((), tx);
    assert!(!e.reply(1));
}

#[test]
fn stopping_policies() {
    assert_eq!(default_stopping(StopCause::Requested), Stopping::Stop);
    assert_eq!(default_stopping(StopCause::Unreachable), Stopping::Stop);
    assert_eq!(supervised_stopping(StopCause::Requested), (true, Stopping::Continue));
    assert_eq!(supervised_stopping(StopCause::Unreachable), (false, Stopping::Stop));
}

#[test]
fn stop_request_is_seen_before_waiting_envelopes() {
    let mut c: ActorCore<u32> = ActorCore::new();
    assert_eq!(c.state(), ActorState::Starting);
    c.started();
    c.do_send(1);
    c.stop();
    assert!(matches!(c.next(), Step::Negotiate(StopCause::Requested)));
    assert_eq!(c.state(), ActorState::Stopping);
    assert!(c.resolve(Stopping::Continue).is_empty());
    assert_eq!(c.pending(), 1);
    assert!(matches!(c.next(), Step::Dispatch(1)));
    assert!(matches!(c.next(), Step::Idle));
}

#[test]
fn stop_verdict_hands_back_waiting_envelopes() {
    let mut c: ActorCore<u32> = ActorCore::new();
    c.started();
    c.stop();
    c.do_send(5);
    c.do_send(6);
    assert!(matches!(c.next(), Step::Negotiate(StopCause::Requested)));
    c.do_send(7);
    assert_eq!(c.resolve(Stopping::Stop), vec![5, 6, 7]);
    assert_eq!(c.state(), ActorState::Stopped);
    assert_eq!(c.try_send(8), Err(ActorError::CannotSend));
}

#[test]
fn continue_keeps_envelopes_sent_while_stopping() {
    let mut c: ActorCore<u32> = ActorCore::new();
    c.started();
    c.do_send(1);
    c.stop();
    assert!(matches!(c.next(), Step::Negotiate(StopCause::Requested)));
    c.do_send(2);
    c.resolve(Stopping::Continue);
    assert!(matches!(c.next(), Step::Dispatch(1)));
    assert!(matches!(c.next(), Step::Dispatch(2)));
}

#[test]
fn forward_appends_in_order() {
    let mut c: ActorCore<u32> = ActorCore::new();
    c.started();
    c.do_send(0);
    assert_eq!(c.forward(vec![1, 2, 3]), 3);
    assert_eq!(c.forward(vec![]), 0);
    for expected in 0..4u32 {
        match c.next() {
            Step::Dispatch(got) => assert_eq!(got, expected),
            _ => panic!("expected an envelope"),
        }
    }
    assert!(matches!(c.next(), Step::Idle));
}

#[test]
fn forward_into_a_stopped_actor_delivers_nothing() {
    let mut c: ActorCore<u32> = ActorCore::new();
    c.started();
    c.release_addr();
    assert!(matches!(c.next(), Step::Negotiate(StopCause::Unreachable)));
    c.resolve(Stopping::Stop);
    assert_eq!(c.forward(vec![1, 2]), 0);
    assert_eq!(c.pending(), 0);
}

#[test]
fn weak_handle_cannot_revive_unreachable_actor() {
    let mut c: ActorCore<u32> = ActorCore::new();
    c.started();
    c.clone_addr();
    assert_eq!(c.strong_count(), 2);
    c.release_addr();
    c.release_addr();
    assert!(!c.upgrade());
    assert!(matches!(c.next(), Step::Negotiate(StopCause::Unreachable)));
}
