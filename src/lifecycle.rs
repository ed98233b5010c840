use vstd::prelude::*;

verus! {

/// Where an actor is in its life. Visible to the actor through its context.
#[derive(Debug, Clone, Copy, PartialEq, Eq, Structural)]
pub enum ActorState {
    Starting,
    Running,
    Stopping,
    Stopped,
}

/// The verdict of the `stopping` hook.
#[derive(Debug, Clone, Copy, PartialEq, Eq, Structural)]
pub enum Stopping {
    /// Proceed to termination.
    Stop,
    /// Go back to running; nothing already enqueued is lost.
    Continue,
}

/// Why the run loop entered stop negotiation.
#[derive(Debug, Clone, Copy, PartialEq, Eq, Structural)]
pub enum StopCause {
    /// The actor called `stop` on its context.
    Requested,
    /// The mailbox is drained and no strong handle is left.
    Unreachable,
}

/// What the default `stopping` hook of a supervised actor decides: whether to
/// run `restarting` on the live instance, and the verdict.
pub open spec fn spec_supervised_stopping(cause: StopCause) -> (bool, Stopping) {
    match cause {
        StopCause::Requested => (true, Stopping::Continue),
        StopCause::Unreachable => (false, Stopping::Stop),
    }
}

/// The default stopping policy of a supervised actor. A requested stop becomes
/// an in-place restart. Once nothing can reach the actor any more a restart
/// would serve no one, so it terminates.
pub fn supervised_stopping(cause: StopCause) -> (r: (bool, Stopping))
    ensures
        r == spec_supervised_stopping(cause),
{
    match cause {
        StopCause::Requested => (true, Stopping::Continue),
        StopCause::Unreachable => (false, Stopping::Stop),
    }
}

/// The default `stopping` verdict of an actor without supervision.
pub fn default_stopping(cause: StopCause) -> (r: Stopping)
    ensures
        r == Stopping::Stop,
{
    Stopping::Stop
}

} // verus!
