use vstd::prelude::*;
use std::collections::VecDeque;
use crate::error::ActorError;

verus! {

/// What a mailbox is, mathematically: the envelopes waiting in it, in order,
/// the number of strong handles alive, and whether its receiver still exists.
pub struct MailboxModel<E> {
    pub queue: Seq<E>,
    pub strong: nat,
    pub open: bool,
}

/// What the receive side sees when it asks for the next envelope.
pub enum Received<E> {
    /// The oldest waiting envelope, now removed from the queue.
    Message(E),
    /// Nothing is waiting, but some strong handle could still send.
    Pending,
    /// Nothing is waiting and no strong handle is left: end of stream.
    Closed,
}

pub open spec fn model_send<E>(m: MailboxModel<E>, e: E) -> MailboxModel<E> {
    if m.open {
        MailboxModel { queue: m.queue.push(e), ..m }
    } else {
        m
    }
}

pub open spec fn model_recv<E>(m: MailboxModel<E>) -> (MailboxModel<E>, Received<E>) {
    if m.queue.len() > 0 {
        (MailboxModel { queue: m.queue.drop_first(), ..m }, Received::Message(m.queue[0]))
    } else if m.strong == 0 {
        (m, Received::Closed)
    } else {
        (m, Received::Pending)
    }
}

pub open spec fn model_upgrade<E>(m: MailboxModel<E>) -> (MailboxModel<E>, bool) {
    if m.strong > 0 {
        (MailboxModel { strong: m.strong + 1, ..m }, true)
    } else {
        (m, false)
    }
}

pub open spec fn model_release<E>(m: MailboxModel<E>) -> MailboxModel<E> {
    MailboxModel { strong: (m.strong - 1) as nat, ..m }
}

pub open spec fn model_close<E>(m: MailboxModel<E>) -> MailboxModel<E> {
    MailboxModel { queue: Seq::empty(), open: false, ..m }
}

/// An unbounded FIFO queue of envelopes for one actor, together with the
/// count of strong handles that keep it reachable.
pub struct Mailbox<E> {
    queue: VecDeque<E>,
    strong: u64,
    open: bool,
}

impl<E> View for Mailbox<E> {
    type V = MailboxModel<E>;

    closed spec fn view(&self) -> MailboxModel<E> {
        MailboxModel { queue: self.queue@, strong: self.strong as nat, open: self.open }
    }
}

impl<E> Mailbox<E> {
    /// A fresh, open, empty mailbox with the single strong handle that spawning
    /// hands back to the caller.
    pub fn new() -> (r: Self)
        ensures
            r@ == (MailboxModel::<E> { queue: Seq::empty(), strong: 1, open: true }),
    {
        Mailbox { queue: VecDeque::new(), strong: 1, open: true }
    }

    pub fn len(&self) -> (r: usize)
        ensures
            r == self@.queue.len(),
    {
        self.queue.len()
    }

    pub fn strong_count(&self) -> (r: u64)
        ensures
            r == self@.strong,
    {
        self.strong
    }

    /// Whether the receiver is still alive, so that sending can succeed.
    pub fn is_open(&self) -> (r: bool)
        ensures
            r == self@.open,
    {
        self.open
    }

    /// Cloning a strong handle.
    pub fn clone_strong(&mut self)
        requires
            old(self)@.strong > 0,
            old(self)@.strong < u64::MAX,
        ensures
            final(self)@ == (MailboxModel { strong: old(self)@.strong + 1, ..old(self)@ }),
    {
        self.strong = self.strong + 1;
    }

    /// Dropping a strong handle.
    pub fn release_strong(&mut self)
        requires
            old(self)@.strong > 0,
        ensures
            final(self)@ == model_release(old(self)@),
    {
        self.strong = self.strong - 1;
    }

    /// Upgrading a weak handle: succeeds, and adds a strong handle, only while
    /// another strong handle is alive.
    pub fn upgrade(&mut self) -> (r: bool)
        requires
            old(self)@.strong < u64::MAX,
        ensures
            (final(self)@, r) == model_upgrade(old(self)@),
    {
        if self.strong > 0 {
            self.strong = self.strong + 1;
            true
        } else {
            false
        }
    }

    /// The actor minting a strong handle to itself: allowed even when no other
    /// strong handle is left, which revives the mailbox.
    pub fn mint_strong(&mut self)
        requires
            old(self)@.strong < u64::MAX,
        ensures
            final(self)@ == (MailboxModel { strong: old(self)@.strong + 1, ..old(self)@ }),
    {
        self.strong = self.strong + 1;
    }

    /// Enqueue without suspending; fails exactly when the receiver is gone.
    pub fn try_send(&mut self, e: E) -> (r: Result<(), ActorError>)
        ensures
            final(self)@ == model_send(old(self)@, e),
            r is Ok <==> old(self)@.open,
            r is Err ==> r == Err::<(), ActorError>(ActorError::CannotSend),
    {
        if self.open {
            self.queue.push_back(e);
            Ok(())
        } else {
            Err(ActorError::CannotSend)
        }
    }

    /// Fire-and-forget enqueue: a closed mailbox makes it a no-op.
    pub fn do_send(&mut self, e: E)
        ensures
            final(self)@ == model_send(old(self)@, e),
    {
        let _ = self.try_send(e);
    }

    /// Take the next envelope, or report why there is none.
    pub fn recv(&mut self) -> (r: Received<E>)
        ensures
            (final(self)@, r) == model_recv(old(self)@),
    {
        match self.queue.pop_front() {
            Some(e) => Received::Message(e),
            None => {
                if self.strong == 0 {
                    Received::Closed
                } else {
                    Received::Pending
                }
            }
        }
    }

    /// Drop the receiver: the mailbox accepts nothing more, and the envelopes
    /// still waiting are handed back, oldest first, as undeliverable.
    pub fn close(&mut self) -> (r: Vec<E>)
        ensures
            final(self)@ == model_close(old(self)@),
            r@ == old(self)@.queue,
    {
        let mut out: Vec<E> = Vec::new();
        let ghost q0 = self.queue@;
        while self.queue.len() > 0
            invariant
                out@ + self.queue@ == q0,
                self.strong == old(self).strong,
            decreases self.queue@.len(),
        {
            let e = self.queue.pop_front().unwrap();
            out.push(e);
            assert(out@ + self.queue@ =~= q0);
        }
        assert(out@ =~= q0);
        self.open = false;
        assert(self@.queue =~= Seq::<E>::empty());
        out
    }
}

} // verus!
