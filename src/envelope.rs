use vstd::prelude::*;
use tokio::sync::oneshot::Sender;

verus! {

/// tokio's `oneshot::Sender`, the reply channel of an envelope, carried as an
/// opaque value.
#[verifier::external_type_specification]
#[verifier::external_body]
#[verifier::reject_recursive_types(T)]
pub struct ExOneshotSender<T>(Sender<T>);

/// Relies on tokio's `oneshot::Sender::send`: it consumes the sender, and when
/// the receiving end is already gone it gives the value back unchanged as the
/// error.
pub assume_specification<T>[ Sender::<T>::send ](sender: Sender<T>, t: T) -> (r: Result<(), T>)
    ensures
        r matches Err(v) ==> v == t,
;

/// What an envelope holds: the message, until it is taken out for the
/// handler; the reply channel, until it is used; and the value handed to that
/// channel, once a reply has been given.
#[verifier::reject_recursive_types(R)]
pub struct EnvelopeModel<M, R> {
    pub item: Option<M>,
    pub channel: Option<Sender<R>>,
    pub replied: Option<R>,
}

/// One message bound to the one-shot channel that carries its reply back to
/// the sender.
#[verifier::reject_recursive_types(R)]
pub struct Envelope<M, R> {
    item: Option<M>,
    tx: Option<Sender<R>>,
    replied: Ghost<Option<R>>,
}

impl<M, R> View for Envelope<M, R> {
    type V = EnvelopeModel<M, R>;

    closed spec fn view(&self) -> EnvelopeModel<M, R> {
        EnvelopeModel { item: self.item, channel: self.tx, replied: self.replied@ }
    }
}

impl<M, R> Envelope<M, R> {
    pub fn new(item: M, tx: Sender<R>) -> (r: Self)
        ensures
            r@ == (EnvelopeModel { item: Some(item), channel: Some(tx), replied: None }),
    {
        Envelope { item: Some(item), tx: Some(tx), replied: Ghost(None) }
    }

    /// Take the message out for the handler. It can be taken once only: a
    /// second call yields `None`.
    pub fn take_message(&mut self) -> (r: Option<M>)
        ensures
            r == old(self)@.item,
            final(self)@ == (EnvelopeModel::<M, R> { item: None, ..old(self)@ }),
    {
        self.item.take()
    }

    /// Deliver the handler's result: `ret` is handed to the reply channel,
    /// which is then used up. When the reply was already given this is a
    /// no-op, and so it is, for the caller, when the caller has stopped
    /// waiting. Returns whether the reply reached a waiting caller.
    pub fn reply(&mut self, ret: R) -> (delivered: bool)
        ensures
            final(self)@.item == old(self)@.item,
            final(self)@.channel is None,
            old(self)@.channel is Some ==> final(self)@.replied == Some(ret),
            old(self)@.channel is None ==> final(self)@.replied == old(self)@.replied,
            delivered ==> old(self)@.channel is Some,
    {
        match self.tx.take() {
            Some(tx) => {
                self.replied = Ghost(Some(ret));
                tx.send(ret).is_ok()
            },
            None => false,
        }
    }
}

} // verus!
