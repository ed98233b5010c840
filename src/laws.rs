use vstd::prelude::*;
use crate::lifecycle::{ActorState, StopCause, Stopping, spec_supervised_stopping};
use crate::mailbox::{MailboxModel, Received, model_recv, model_send, model_upgrade};
use crate::run_loop::{
    CoreModel, Step, core_mint, core_next, core_release, core_resolve, core_send,
};

verus! {

/// The mailbox after sending each of `es`, in order, through one handle.
pub open spec fn send_all<E>(m: MailboxModel<E>, es: Seq<E>) -> MailboxModel<E>
    decreases es.len(),
{
    if es.len() == 0 {
        m
    } else {
        send_all(model_send(m, es[0]), es.drop_first())
    }
}

/// The mailbox after `n` receives, and the envelopes those receives yielded.
pub open spec fn recv_n<E>(m: MailboxModel<E>, n: nat) -> (MailboxModel<E>, Seq<E>)
    decreases n,
{
    if n == 0 {
        (m, Seq::empty())
    } else {
        let (m1, r) = model_recv(m);
        let (m2, got) = recv_n(m1, (n - 1) as nat);
        match r {
            Received::Message(e) => (m2, seq![e] + got),
            _ => (m2, got),
        }
    }
}

proof fn lemma_send_all_appends<E>(m: MailboxModel<E>, es: Seq<E>)
    requires
        m.open,
    ensures
        send_all(m, es) == (MailboxModel { queue: m.queue + es, ..m }),
    decreases es.len(),
{
    if es.len() > 0 {
        let m1 = model_send(m, es[0]);
        lemma_send_all_appends(m1, es.drop_first());
        assert(m1.queue + es.drop_first() =~= m.queue + es);
    } else {
        assert(m.queue + es =~= m.queue);
    }
}

proof fn lemma_recv_n_drains<E>(m: MailboxModel<E>)
    ensures
        recv_n(m, m.queue.len()) == (MailboxModel { queue: Seq::<E>::empty(), ..m }, m.queue),
    decreases m.queue.len(),
{
    if m.queue.len() > 0 {
        let (m1, r) = model_recv(m);
        lemma_recv_n_drains(m1);
        assert(seq![m.queue[0]] + m1.queue =~= m.queue);
    } else {
        assert(m.queue =~= Seq::<E>::empty());
    }
}

/// Envelopes sent through one handle to a live actor are each received exactly
/// once, in the order they were sent, after whatever was already waiting.
pub proof fn lemma_delivery_once_in_order<E>(m: MailboxModel<E>, es: Seq<E>)
    requires
        m.open,
    ensures
        recv_n(send_all(m, es), m.queue.len() + es.len()) == (
            MailboxModel { queue: Seq::<E>::empty(), ..m },
            m.queue + es,
        ),
{
    lemma_send_all_appends(m, es);
    lemma_recv_n_drains(send_all(m, es));
}

/// Running a pure handler `h` from state `s` over the envelopes `es`, one at a
/// time and in order: the final state and the reply to each envelope.
pub open spec fn run_handler<S, E, R>(h: spec_fn(S, E) -> (S, R), s: S, es: Seq<E>) -> (S, Seq<R>)
    decreases es.len(),
{
    if es.len() == 0 {
        (s, Seq::empty())
    } else {
        let (s1, r) = h(s, es[0]);
        let (s2, rs) = run_handler(h, s1, es.drop_first());
        (s2, seq![r] + rs)
    }
}

/// When one caller sends `es` in order to an idle live actor whose handler is
/// the pure function `h`, the run loop hands the handler exactly the sent
/// envelopes in order, so the actor's final state and the reply to each
/// envelope are those of `h` applied to the sent sequence.
pub proof fn lemma_replies_follow_handler<S, E, R>(
    m: MailboxModel<E>,
    es: Seq<E>,
    h: spec_fn(S, E) -> (S, R),
    s0: S,
)
    requires
        m.open,
        m.queue.len() == 0,
    ensures
        run_handler(h, s0, recv_n(send_all(m, es), es.len()).1) == run_handler(h, s0, es),
{
    lemma_delivery_once_in_order(m, es);
    assert(m.queue + es =~= es);
}

/// Dropping the last strong handle of an idle running actor makes its next
/// iteration negotiate a stop; with the verdict `Stop` it ends Stopped, its
/// mailbox closed, so that any later send leaves it unchanged (and `try_send`
/// fails); a weak handle can no longer be upgraded, and not even a handle the
/// actor mints for itself brings it out of Stopped.
pub proof fn lemma_last_drop_stops<E>(c: CoreModel<E>, e: E)
    requires
        c.state == ActorState::Running,
        !c.stop_requested,
        c.mailbox.open,
        c.mailbox.queue.len() == 0,
        c.mailbox.strong == 1,
    ensures
        ({
            let c1 = core_release(c);
            let (c2, step) = core_next(c1);
            let c3 = core_resolve(c2, Stopping::Stop);
            &&& step == Step::<E>::Negotiate(StopCause::Unreachable)
            &&& c2.state == ActorState::Stopping
            &&& c3.state == ActorState::Stopped
            &&& !c3.mailbox.open
            &&& core_send(c3, e) == c3
            &&& !model_upgrade(c3.mailbox).1
            &&& core_mint(c3).state == ActorState::Stopped
        }),
{
}

/// The verdict `Continue` loses nothing: envelopes waiting when stop
/// negotiation began, and those sent while it went on, are all still queued,
/// in order, when the actor is back to running.
pub proof fn lemma_continue_keeps_envelopes<E>(c: CoreModel<E>, es: Seq<E>)
    requires
        c.state == ActorState::Stopping,
        c.mailbox.open,
    ensures
        ({
            let c1 = core_resolve(
                CoreModel { mailbox: send_all(c.mailbox, es), ..c },
                Stopping::Continue,
            );
            &&& c1.state == ActorState::Running
            &&& c1.mailbox.queue == c.mailbox.queue + es
        }),
{
    lemma_send_all_appends(c.mailbox, es);
}

/// An unreachable actor that mints a strong handle to itself while stopping
/// and answers `Continue` runs again and stays idle rather than negotiating
/// again; once that handle is dropped, its next iteration negotiates a stop
/// once more.
pub proof fn lemma_self_address_revives<E>(c: CoreModel<E>)
    requires
        c.state == ActorState::Running,
        !c.stop_requested,
        c.mailbox.queue.len() == 0,
        c.mailbox.strong == 0,
    ensures
        ({
            let (c1, s1) = core_next(c);
            let c2 = core_resolve(core_mint(c1), Stopping::Continue);
            let (c3, s3) = core_next(c2);
            let (c4, s4) = core_next(core_release(c3));
            &&& s1 == Step::<E>::Negotiate(StopCause::Unreachable)
            &&& c2.state == ActorState::Running
            &&& s3 == Step::<E>::Idle
            &&& c3.state == ActorState::Running
            &&& s4 == Step::<E>::Negotiate(StopCause::Unreachable)
            &&& c4.state == ActorState::Stopping
        }),
{
}

/// A running actor that has minted a strong handle to itself is never found
/// unreachable while that handle lives, whatever the count was before: the
/// count rises by one and the queue and state are kept.
pub proof fn lemma_self_address_prevents_unreachable<E>(c: CoreModel<E>)
    requires
        c.state == ActorState::Running,
    ensures
        core_mint(c).mailbox.strong == c.mailbox.strong + 1,
        core_mint(c).mailbox.queue == c.mailbox.queue,
        core_mint(c).state == c.state,
        core_next(core_mint(c)).1 != Step::<E>::Negotiate(StopCause::Unreachable),
{
}

/// One stop request handled under supervision: the request is seen, the
/// default supervised policy decides, the verdict is applied. Gives the new
/// state and whether `restarting` ran.
pub open spec fn supervised_request<E>(c: CoreModel<E>) -> (CoreModel<E>, bool) {
    let (c1, step) = core_next(CoreModel { stop_requested: true, ..c });
    match step {
        Step::Negotiate(cause) => {
            let (restart, verdict) = spec_supervised_stopping(cause);
            (core_resolve(c1, verdict), restart)
        },
        _ => (c1, false),
    }
}

/// `m` stop requests in a row under supervision: the final state and how many
/// times `restarting` ran.
pub open spec fn supervised_requests<E>(c: CoreModel<E>, m: nat) -> (CoreModel<E>, nat)
    decreases m,
{
    if m == 0 {
        (c, 0)
    } else {
        let (c1, restarted) = supervised_request(c);
        let (c2, n) = supervised_requests(c1, (m - 1) as nat);
        (c2, if restarted { n + 1 } else { n })
    }
}

/// A supervised actor that asks to stop `m` times in a row restarts exactly
/// `m` times and keeps running with the same mailbox; only unreachability
/// makes it stop.
pub proof fn lemma_supervised_restarts<E>(c: CoreModel<E>, m: nat)
    requires
        c.state == ActorState::Running,
        !c.stop_requested,
    ensures
        supervised_requests(c, m) == (c, m),
    decreases m,
{
    if m > 0 {
        let (c1, restarted) = supervised_request(c);
        assert(restarted);
        assert(c1 == c);
        lemma_supervised_restarts(c1, (m - 1) as nat);
    }
}

/// Two idle actors where `a` holds the only strong handle to `b` and `b`
/// holds only a weak handle to `a`: once no strong handle to `a` is left
/// elsewhere, `b` cannot revive it through its weak handle, `a` negotiates and
/// stops, and dropping `a`'s handle to `b` makes `b` negotiate and stop too.
pub proof fn lemma_weak_back_reference_unwinds<E, F>(a: CoreModel<E>, b: CoreModel<F>)
    requires
        a.state == ActorState::Running,
        b.state == ActorState::Running,
        !a.stop_requested,
        !b.stop_requested,
        a.mailbox.queue.len() == 0,
        b.mailbox.queue.len() == 0,
        a.mailbox.strong == 0,
        b.mailbox.strong == 1,
    ensures
        ({
            let (a1, sa) = core_next(a);
            let a2 = core_resolve(a1, Stopping::Stop);
            let (b1, sb) = core_next(core_release(b));
            let b2 = core_resolve(b1, Stopping::Stop);
            &&& !model_upgrade(a.mailbox).1
            &&& sa == Step::<E>::Negotiate(StopCause::Unreachable)
            &&& a2.state == ActorState::Stopped
            &&& sb == Step::<F>::Negotiate(StopCause::Unreachable)
            &&& b2.state == ActorState::Stopped
        }),
{
}

} // verus!
