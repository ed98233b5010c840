use vstd::prelude::*;
use crate::error::ActorError;
use crate::lifecycle::{ActorState, StopCause, Stopping};
use crate::mailbox::{
    Mailbox, MailboxModel, Received, model_close, model_recv, model_release, model_send,
    model_upgrade,
};

verus! {

/// The run loop's whole state, mathematically.
pub struct CoreModel<E> {
    pub mailbox: MailboxModel<E>,
    pub state: ActorState,
    pub stop_requested: bool,
}

/// What the run loop must do next.
pub enum Step<E> {
    /// Hand this envelope to the actor's handler.
    Dispatch(E),
    /// Nothing to do: wait until an envelope is queued or a handle dropped.
    Idle,
    /// Run the `stopping` hook and report its verdict through `resolve`.
    Negotiate(StopCause),
}

pub open spec fn core_start<E>(c: CoreModel<E>) -> CoreModel<E> {
    CoreModel { state: ActorState::Running, ..c }
}

pub open spec fn core_next<E>(c: CoreModel<E>) -> (CoreModel<E>, Step<E>) {
    if c.stop_requested {
        (
            CoreModel { state: ActorState::Stopping, stop_requested: false, ..c },
            Step::Negotiate(StopCause::Requested),
        )
    } else {
        let (m, r) = model_recv(c.mailbox);
        match r {
            Received::Message(e) => (CoreModel { mailbox: m, ..c }, Step::Dispatch(e)),
            Received::Pending => (c, Step::Idle),
            Received::Closed => (
                CoreModel { state: ActorState::Stopping, ..c },
                Step::Negotiate(StopCause::Unreachable),
            ),
        }
    }
}

pub open spec fn core_resolve<E>(c: CoreModel<E>, v: Stopping) -> CoreModel<E> {
    match v {
        Stopping::Continue => CoreModel { state: ActorState::Running, ..c },
        Stopping::Stop => CoreModel {
            state: ActorState::Stopped,
            mailbox: model_close(c.mailbox),
            ..c
        },
    }
}

pub open spec fn core_send<E>(c: CoreModel<E>, e: E) -> CoreModel<E> {
    CoreModel { mailbox: model_send(c.mailbox, e), ..c }
}

pub open spec fn core_release<E>(c: CoreModel<E>) -> CoreModel<E> {
    CoreModel { mailbox: model_release(c.mailbox), ..c }
}

pub open spec fn core_mint<E>(c: CoreModel<E>) -> CoreModel<E> {
    CoreModel { mailbox: MailboxModel { strong: c.mailbox.strong + 1, ..c.mailbox }, ..c }
}

/// The decisions of one actor's run loop, together with its mailbox: a state
/// machine from events to the next action. The driver that owns the actor
/// instance performs each action (running hooks and handlers, waiting) and
/// reports back.
pub struct ActorCore<E> {
    mailbox: Mailbox<E>,
    state: ActorState,
    stop_requested: bool,
}

impl<E> View for ActorCore<E> {
    type V = CoreModel<E>;

    closed spec fn view(&self) -> CoreModel<E> {
        CoreModel { mailbox: self.mailbox@, state: self.state, stop_requested: self.stop_requested }
    }
}

impl<E> ActorCore<E> {
    /// A freshly spawned actor: Starting, with an open empty mailbox and the one
    /// strong handle given to the spawner.
    pub fn new() -> (r: Self)
        ensures
            r@ == (CoreModel::<E> {
                mailbox: MailboxModel { queue: Seq::empty(), strong: 1, open: true },
                state: ActorState::Starting,
                stop_requested: false,
            }),
    {
        ActorCore { mailbox: Mailbox::new(), state: ActorState::Starting, stop_requested: false }
    }

    /// The lifecycle state, as `ActorContext::state` reports it.
    pub fn state(&self) -> (r: ActorState)
        ensures
            r == self@.state,
    {
        self.state
    }

    /// Number of envelopes waiting.
    pub fn pending(&self) -> (r: usize)
        ensures
            r == self@.mailbox.queue.len(),
    {
        self.mailbox.len()
    }

    pub fn strong_count(&self) -> (r: u64)
        ensures
            r == self@.mailbox.strong,
    {
        self.mailbox.strong_count()
    }

    /// The `started` hook has run: start accepting messages.
    pub fn started(&mut self)
        requires
            old(self)@.state == ActorState::Starting,
        ensures
            final(self)@ == core_start(old(self)@),
    {
        self.state = ActorState::Running;
    }

    /// `ActorContext::stop`: ask for stop negotiation at the next iteration.
    pub fn stop(&mut self)
        ensures
            final(self)@ == (CoreModel { stop_requested: true, ..old(self)@ }),
    {
        self.stop_requested = true;
    }

    /// One iteration of the running loop. A pending stop request is seen first;
    /// otherwise the oldest envelope is dispatched; with none waiting and no
    /// strong handle left, the actor is unreachable and negotiates its stop.
    pub fn next(&mut self) -> (r: Step<E>)
        requires
            old(self)@.state == ActorState::Running,
        ensures
            (final(self)@, r) == core_next(old(self)@),
    {
        if self.stop_requested {
            self.stop_requested = false;
            self.state = ActorState::Stopping;
            Step::Negotiate(StopCause::Requested)
        } else {
            match self.mailbox.recv() {
                Received::Message(e) => Step::Dispatch(e),
                Received::Pending => Step::Idle,
                Received::Closed => {
                    self.state = ActorState::Stopping;
                    Step::Negotiate(StopCause::Unreachable)
                },
            }
        }
    }

    /// Apply the `stopping` verdict. `Continue` returns to running with the
    /// mailbox untouched. `Stop` makes the actor Stopped for good and closes
    /// the mailbox; the envelopes still waiting come back as undeliverable,
    /// oldest first, so that their senders learn of the failure.
    pub fn resolve(&mut self, verdict: Stopping) -> (r: Vec<E>)
        requires
            old(self)@.state == ActorState::Stopping,
        ensures
            final(self)@ == core_resolve(old(self)@, verdict),
            verdict == Stopping::Stop ==> r@ == old(self)@.mailbox.queue,
            verdict == Stopping::Continue ==> r@.len() == 0,
    {
        match verdict {
            Stopping::Continue => {
                self.state = ActorState::Running;
                Vec::new()
            },
            Stopping::Stop => {
                self.state = ActorState::Stopped;
                self.mailbox.close()
            },
        }
    }

    /// `ActorContext::address`: the actor mints a strong handle to itself.
    pub fn address(&mut self)
        requires
            old(self)@.mailbox.strong < u64::MAX,
        ensures
            final(self)@ == core_mint(old(self)@),
    {
        self.mailbox.mint_strong();
    }

    /// Cloning a strong handle.
    pub fn clone_addr(&mut self)
        requires
            old(self)@.mailbox.strong > 0,
            old(self)@.mailbox.strong < u64::MAX,
        ensures
            final(self)@ == core_mint(old(self)@),
    {
        self.mailbox.clone_strong();
    }

    /// Dropping a strong handle.
    pub fn release_addr(&mut self)
        requires
            old(self)@.mailbox.strong > 0,
        ensures
            final(self)@ == core_release(old(self)@),
    {
        self.mailbox.release_strong();
    }

    /// `WeakAddr::upgrade`: a strong handle only while another one is alive.
    pub fn upgrade(&mut self) -> (r: bool)
        requires
            old(self)@.mailbox.strong < u64::MAX,
        ensures
            final(self)@.mailbox == model_upgrade(old(self)@.mailbox).0,
            r == model_upgrade(old(self)@.mailbox).1,
            final(self)@.state == old(self)@.state,
            final(self)@.stop_requested == old(self)@.stop_requested,
    {
        self.mailbox.upgrade()
    }

    /// Enqueue without suspending; `CannotSend` exactly when the actor has
    /// stopped and its mailbox is closed.
    pub fn try_send(&mut self, e: E) -> (r: Result<(), ActorError>)
        ensures
            final(self)@ == core_send(old(self)@, e),
            r is Ok <==> old(self)@.mailbox.open,
            r is Err ==> r == Err::<(), ActorError>(ActorError::CannotSend),
    {
        self.mailbox.try_send(e)
    }

    /// Fire-and-forget enqueue: silently nothing when the mailbox is closed.
    pub fn do_send(&mut self, e: E)
        ensures
            final(self)@ == core_send(old(self)@, e),
    {
        self.mailbox.do_send(e)
    }

    /// Stream adoption: forward each item of a finite sequence as a send to
    /// the actor itself, stopping silently at the first failed delivery.
    /// Returns how many were delivered.
    pub fn forward(&mut self, items: Vec<E>) -> (r: usize)
        ensures
            old(self)@.mailbox.open ==> r == items@.len() && final(self)@ == (CoreModel {
                mailbox: MailboxModel {
                    queue: old(self)@.mailbox.queue + items@,
                    ..old(self)@.mailbox
                },
                ..old(self)@
            }),
            !old(self)@.mailbox.open ==> r == 0 && final(self)@ == old(self)@,
    {
        let mut items = items;
        let ghost all = items@;
        let n: usize = items.len();
        let mut rest: std::collections::VecDeque<E> = std::collections::VecDeque::new();
        while items.len() > 0
            invariant
                items@ + rest@ == all,
            decreases items@.len(),
        {
            let e = items.pop().unwrap();
            rest.push_front(e);
            assert(items@ + rest@ =~= all);
        }
        assert(rest@ =~= all);
        let mut sent: usize = 0;
        while rest.len() > 0
            invariant
                sent + rest@.len() == all.len(),
                all.len() == n,
                rest@ == all.subrange(sent as int, all.len() as int),
                self@.state == old(self)@.state,
                self@.stop_requested == old(self)@.stop_requested,
                self@.mailbox.strong == old(self)@.mailbox.strong,
                self@.mailbox.open == old(self)@.mailbox.open,
                old(self)@.mailbox.open ==> self@.mailbox.queue == old(self)@.mailbox.queue
                    + all.subrange(0, sent as int),
                !old(self)@.mailbox.open ==> self@ == old(self)@ && sent == 0,
            decreases rest@.len(),
        {
            let e = rest.pop_front().unwrap();
            match self.mailbox.try_send(e) {
                Ok(()) => {
                    assert(all.subrange(0, sent + 1) =~= all.subrange(0, sent as int).push(
                        all[sent as int],
                    ));
                    sent = sent + 1;
                    assert(rest@ =~= all.subrange(sent as int, all.len() as int));
                },
                Err(_) => {
                    return 0;
                },
            }
        }
        assert(all.subrange(0, sent as int) =~= all);
        sent
    }
}

} // verus!
