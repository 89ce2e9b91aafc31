//! The polling loop: one pass over a list of notifiers per tick, a fixed pause
//! between ticks, until a stop is requested.

use crate::handler::after_poll;
use crate::handler::next_event;
use crate::handler::Handler;
use crate::handler::HandlerFn;
use crate::handler::Notifier;
use vstd::prelude::*;

verus! {

/// The pause between two ticks, in milliseconds. A trade-off between quick
/// reaction and idle work, not a guarantee.
pub const POLL_INTERVAL_MS: u64 = 100;

/// What the loop that drives a [`Poller`] does after a step.
#[derive(Debug, Clone, Copy, PartialEq, Eq, Structural)]
pub enum PollerStep {
    /// Wait for this many milliseconds, then take the next step.
    Wait(u64),
    /// Leave the loop.
    Exit,
}

/// The queues of a list of notifiers, in the order of the list.
pub open spec fn queues<Args, N: Notifier<Args>>(notifiers: Seq<N>) -> Seq<Seq<Args>> {
    Seq::new(notifiers.len(), |i: int| notifiers[i].pending())
}

/// The events that one pass over sources with these queues hands out: the
/// oldest event of each queue that holds one, in the order of the queues.
pub open spec fn fired<T>(queues: Seq<Seq<T>>) -> Seq<T>
    decreases queues.len(),
{
    if queues.len() == 0 {
        Seq::empty()
    } else {
        match next_event(queues.last()) {
            Some(event) => fired(queues.drop_last()).push(event),
            None => fired(queues.drop_last()),
        }
    }
}

/// The state of a polling loop: the notifiers it polls, the callback it
/// reports to, and whether a stop was requested.
#[verifier::reject_recursive_types(Args)]
#[verifier::reject_recursive_types(Out)]
#[verifier::reject_recursive_types(C)]
pub struct Poller<Args, N: Notifier<Args>, Out, C: HandlerFn<Args, Out>> {
    pub notifiers: Vec<N>,
    pub callback: Handler<Args, Out, C>,
    pub stop: bool,
}

impl<Args, N: Notifier<Args>, Out, C: HandlerFn<Args, Out>> Poller<Args, N, Out, C> {
    /// What one tick does: every notifier was polled once, and the callback
    /// was called on each event that came out, in the order of the notifiers;
    /// `outs` holds what the callback returned.
    pub open spec fn ticked(before: Self, after: Self, outs: Seq<Out>) -> bool {
        let events = fired(queues(before.notifiers@));
        &&& after.stop == before.stop
        &&& after.callback == before.callback
        &&& after.notifiers@.len() == before.notifiers@.len()
        &&& forall|i: int|
            0 <= i < before.notifiers@.len() ==> (#[trigger] after.notifiers@[i]).pending()
                == after_poll(before.notifiers@[i].pending())
        &&& outs.len() == events.len()
        &&& forall|j: int|
            0 <= j < events.len() ==> before.callback.callback().yields(
                &events[j],
                #[trigger] outs[j],
            )
    }

    /// A poller over `notifiers` that reports to `callback`; no stop is
    /// requested yet.
    pub fn new(notifiers: Vec<N>, callback: Handler<Args, Out, C>) -> (poller: Self)
        ensures
            poller.notifiers == notifiers,
            poller.callback == callback,
            !poller.stop,
    {
        Poller { notifiers, callback, stop: false }
    }

    /// Requests the loop to end. The request is seen at the next step; a tick
    /// that is under way is not interrupted.
    pub fn signal_stop(&mut self)
        ensures
            final(self).stop,
            final(self).notifiers == old(self).notifiers,
            final(self).callback == old(self).callback,
    {
        self.stop = true;
    }

    /// One tick: polls every notifier once, in order, and calls the callback
    /// at once on each event that comes out.
    pub fn tick(&mut self) -> (outs: Vec<Out>)
        ensures
            Self::ticked(*old(self), *final(self), outs@),
    {
        let ghost before = queues(self.notifiers@);
        let ghost mut events: Seq<Args> = Seq::empty();
        let mut outs: Vec<Out> = Vec::new();
        let n = self.notifiers.len();
        let mut i: usize = 0;
        while i < n
            invariant
                i <= n,
                n == self.notifiers@.len(),
                before.len() == n,
                self.stop == old(self).stop,
                self.callback == old(self).callback,
                forall|k: int|
                    0 <= k < i ==> (#[trigger] self.notifiers@[k]).pending() == after_poll(before[k]),
                forall|k: int| i <= k < n ==> (#[trigger] self.notifiers@[k]).pending() == before[k],
                events == fired(before.take(i as int)),
                outs@.len() == events.len(),
                forall|j: int|
                    0 <= j < events.len() ==> self.callback.callback().yields(
                        &events[j],
                        #[trigger] outs@[j],
                    ),
            decreases n - i,
        {
            let event = self.notifiers[i].has_notified();
            proof {
                assert(before.take(i + 1).drop_last() =~= before.take(i as int));
                assert(before.take(i + 1).last() == before[i as int]);
            }
            match event {
                Some(event) => {
                    let out = self.callback.call(&event);
                    outs.push(out);
                    proof {
                        events = events.push(event);
                    }
                },
                None => {},
            }
            i += 1;
        }
        proof {
            assert(before.take(n as int) =~= before);
        }
        outs
    }

    /// One step of the loop. After a stop request nothing is polled and the
    /// loop is to end; otherwise one tick runs and the loop is to wait for
    /// [`POLL_INTERVAL_MS`] before the next step.
    pub fn step(&mut self) -> (taken: (PollerStep, Vec<Out>))
        ensures
            old(self).stop ==> taken.0 == PollerStep::Exit && taken.1@.len() == 0 && *final(self)
                == *old(self),
            !old(self).stop ==> taken.0 == PollerStep::Wait(POLL_INTERVAL_MS) && Self::ticked(
                *old(self),
                *final(self),
                taken.1@,
            ),
    {
        if self.stop {
            (PollerStep::Exit, Vec::new())
        } else {
            let outs = self.tick();
            (PollerStep::Wait(POLL_INTERVAL_MS), outs)
        }
    }
}

/// A pass hands out at most one event per source.
pub proof fn law_at_most_one_each<T>(queues: Seq<Seq<T>>)
    ensures
        fired(queues).len() <= queues.len(),
    decreases queues.len(),
{
    if queues.len() > 0 {
        law_at_most_one_each(queues.drop_last());
    }
}

/// When every source holds an event, one pass hands out exactly one event
/// per source: the oldest of each, in the order of the sources.
pub proof fn law_all_pending_all_fire<T>(queues: Seq<Seq<T>>)
    requires
        forall|i: int| 0 <= i < queues.len() ==> (#[trigger] queues[i]).len() > 0,
    ensures
        fired(queues).len() == queues.len(),
        forall|i: int| 0 <= i < queues.len() ==> (#[trigger] fired(queues)[i]) == queues[i][0],
    decreases queues.len(),
{
    if queues.len() > 0 {
        let rest = queues.drop_last();
        assert forall|i: int| 0 <= i < rest.len() implies (#[trigger] rest[i]).len() > 0 by {
            assert(rest[i] == queues[i]);
        }
        law_all_pending_all_fire(rest);
        assert(queues.last() == queues[queues.len() - 1]);
        assert forall|i: int| 0 <= i < queues.len() implies (#[trigger] fired(queues)[i])
            == queues[i][0] by {
            if i < rest.len() {
                assert(rest[i] == queues[i]);
                assert(fired(rest)[i] == rest[i][0]);
            }
        }
    }
}

/// When no source holds an event, a pass hands out nothing.
pub proof fn law_none_pending_none_fire<T>(queues: Seq<Seq<T>>)
    requires
        forall|i: int| 0 <= i < queues.len() ==> (#[trigger] queues[i]).len() == 0,
    ensures
        fired(queues).len() == 0,
    decreases queues.len(),
{
    if queues.len() > 0 {
        let rest = queues.drop_last();
        assert forall|i: int| 0 <= i < rest.len() implies (#[trigger] rest[i]).len() == 0 by {
            assert(rest[i] == queues[i]);
        }
        law_none_pending_none_fire(rest);
        assert(queues.last() == queues[queues.len() - 1]);
    }
}

} // verus!
