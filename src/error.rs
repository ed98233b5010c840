use vstd::prelude::*;

verus! {

/// The one error of the delivery API: the target mailbox no longer has a
/// receiver (the actor has terminated), or a reply could not be produced.
#[derive(Debug, Clone, Copy, PartialEq, Eq, Structural)]
pub enum ActorError {
    CannotSend,
}

} // verus!
