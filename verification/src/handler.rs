//! Handlers (callbacks that are invoked one caller at a time) and notifiers
//! (polled sources of events).

use core::marker::PhantomData;
use std::collections::VecDeque;
use vstd::prelude::*;
use vstd::rwlock::RwLock;
use vstd::rwlock::RwLockPredicate;

verus! {

/// What a [`Handler`] invokes: a callback with one argument.
///
/// Every closure and function that takes `&Args` and can be sent to another
/// thread is one; a type of its own can be one too, and then states exactly
/// what its invocations return.
pub trait HandlerFn<Args, Out>: Send {
    /// Whether the callback may be invoked on `a`.
    spec fn accepts(&self, a: &Args) -> bool;

    /// Whether an invocation on `a` can return `out`.
    spec fn yields(&self, a: &Args, out: Out) -> bool;

    /// Invokes the callback on `a`.
    fn invoke(&self, a: &Args) -> (out: Out)
        requires
            self.accepts(a),
        ensures
            self.yields(a, out),
    ;
}

impl<Args, Out, F: Fn(&Args) -> Out + Send> HandlerFn<Args, Out> for F {
    open spec fn accepts(&self, a: &Args) -> bool {
        call_requires(*self, (a,))
    }

    open spec fn yields(&self, a: &Args, out: Out) -> bool {
        call_ensures(*self, (a,), out)
    }

    fn invoke(&self, a: &Args) -> (out: Out) {
        self(a)
    }
}

/// A closure's invocations are those that its own contract describes.
pub proof fn closure_contract<Args, Out, F: Fn(&Args) -> Out + Send>(f: F)
    ensures
        forall|a: &Args| #[trigger] f.accepts(a) == call_requires(f, (a,)),
        forall|a: &Args, out: Out| #[trigger] f.yields(a, out) == call_ensures(f, (a,), out),
{
}

/// The lock predicate of a [`Handler`]: the lock only ever holds `callback`.
struct Holds<F> {
    callback: F,
}

impl<F> RwLockPredicate<F> for Holds<F> {
    closed spec fn inv(self, v: F) -> bool {
        v == self.callback
    }
}

/// A callback that is invoked by one caller at a time.
///
/// The callback sits behind a lock that [`Handler::call`] holds for the whole
/// invocation. A callback must therefore never call the handler it belongs to,
/// directly or through another handler: the nested call would wait for a lock
/// that its own caller holds. A handler can be shared between threads where
/// its callback can.
#[verifier::reject_recursive_types(Args)]
#[verifier::reject_recursive_types(Out)]
#[verifier::reject_recursive_types(F)]
pub struct Handler<Args, Out, F: HandlerFn<Args, Out>> {
    slot: RwLock<F, Holds<F>>,
    marker: PhantomData<(Args, Out)>,
}

impl<Args, Out, F: HandlerFn<Args, Out>> Handler<Args, Out, F> {
    /// The callback that this handler wraps.
    pub closed spec fn callback(&self) -> F {
        self.slot.pred().callback
    }

    /// A handler's callback accepts every argument.
    #[verifier::type_invariant]
    spec fn accepts_all(&self) -> bool {
        forall|a: &Args| #[trigger] self.callback().accepts(a)
    }

    /// Wraps `f`, which must be callable on every argument.
    pub fn new(f: F) -> (handler: Self)
        requires
            forall|a: &Args| #[trigger] f.accepts(a),
        ensures
            handler.callback() == f,
    {
        let ghost holds = Holds { callback: f };
        Handler { slot: RwLock::new(f, Ghost(holds)), marker: PhantomData }
    }

    /// Wraps the closure or function `f`, which must be callable on every
    /// argument. What the handler returns is then what the contract of `f`
    /// itself allows.
    pub fn from_fn(f: F) -> (handler: Self) where F: Fn(&Args) -> Out + Send
        requires
            forall|a: &Args| call_requires(f, (a,)),
        ensures
            handler.callback() == f,
            forall|a: &Args, out: Out| #[trigger]
                handler.callback().yields(a, out) == call_ensures(f, (a,), out),
    {
        proof {
            closure_contract::<Args, Out, F>(f);
        }
        Handler::new(f)
    }

    /// Invokes the callback once on `a`, with exclusive access to it, and
    /// returns what the callback returned.
    pub fn call(&self, a: &Args) -> (out: Out)
        ensures
            self.callback().yields(a, out),
    {
        proof {
            use_type_invariant(self);
        }
        let (f, guard) = self.slot.acquire_write();
        assert(f == self.callback());
        assert(self.callback().accepts(a));
        let out = f.invoke(a);
        guard.release_write(f);
        out
    }
}

/// What a poll of a source with the queue `q` hands out.
pub open spec fn next_event<T>(q: Seq<T>) -> Option<T> {
    if q.len() > 0 {
        Some(q[0])
    } else {
        None
    }
}

/// What a source with the queue `q` still holds after one poll.
pub open spec fn after_poll<T>(q: Seq<T>) -> Seq<T> {
    if q.len() > 0 {
        q.skip(1)
    } else {
        q
    }
}

/// What a source with the queue `q` holds after `n` polls.
pub open spec fn after_polls<T>(q: Seq<T>, n: nat) -> Seq<T>
    decreases n,
{
    if n == 0 {
        q
    } else {
        after_polls(after_poll(q), (n - 1) as nat)
    }
}

/// What the poll that follows `n` earlier polls hands out.
pub open spec fn nth_event<T>(q: Seq<T>, n: nat) -> Option<T> {
    next_event(after_polls(q, n))
}

/// A polled source of events: "has this happened since the last check?".
pub trait Notifier<Args>: Send {
    /// The events that the source holds and has not handed out, oldest first.
    spec fn pending(&self) -> Seq<Args>;

    /// Hands out the oldest pending event, if there is one, without waiting.
    fn has_notified(&mut self) -> (event: Option<Args>)
        ensures
            event == next_event(old(self).pending()),
            final(self).pending() == after_poll(old(self).pending()),
    ;
}

/// A notifier that fires exactly once.
pub struct OnceNotifier<Args>(pub Option<Args>);

impl<Args> OnceNotifier<Args> {
    /// A notifier whose first poll hands out `t`.
    pub fn new(t: Args) -> (notifier: Self)
        ensures
            notifier.0 == Some(t),
    {
        OnceNotifier(Some(t))
    }
}

impl<Args: Default> Default for OnceNotifier<Args> {
    /// A notifier whose first poll hands out the default event.
    fn default() -> (notifier: Self)
        ensures
            notifier.0 matches Some(event) && call_ensures(Args::default, (), event),
    {
        OnceNotifier(Some(Default::default()))
    }
}

impl<Args: Send> Notifier<Args> for OnceNotifier<Args> {
    open spec fn pending(&self) -> Seq<Args> {
        match self.0 {
            Some(t) => seq![t],
            None => Seq::empty(),
        }
    }

    fn has_notified(&mut self) -> (event: Option<Args>)
        ensures
            event == old(self).0,
            final(self).0 is None,
    {
        let event = self.0.take();
        proof {
            if event is Some {
                assert(old(self).pending().skip(1) =~= Seq::empty());
            }
        }
        event
    }
}

/// A notifier backed by a bounded first-in, first-out queue.
///
/// Producers enqueue with [`MpscNotifier::send`], which never waits: when the
/// queue is full the event is handed back.
pub struct MpscNotifier<Args> {
    queue: VecDeque<Args>,
    bound: usize,
}

impl<Args> MpscNotifier<Args> {
    /// The most events that the queue holds at a time.
    pub closed spec fn bound(&self) -> nat {
        self.bound as nat
    }

    /// The queued events, oldest first.
    pub closed spec fn queued(&self) -> Seq<Args> {
        self.queue@
    }

    /// The queue never holds more events than its bound.
    pub closed spec fn wf(&self) -> bool {
        self.queue@.len() <= self.bound
    }

    /// An empty queue that holds at most `bound` events.
    pub fn new(bound: usize) -> (notifier: Self)
        ensures
            notifier.wf(),
            notifier.bound() == bound,
            notifier.queued() == Seq::<Args>::empty(),
    {
        MpscNotifier { queue: VecDeque::new(), bound }
    }

    /// Enqueues `t` behind the events already queued, or hands it back when
    /// the queue is full.
    pub fn send(&mut self, t: Args) -> (sent: Result<(), Args>)
        ensures
            old(self).wf() ==> final(self).wf(),
            final(self).bound() == old(self).bound(),
            old(self).queued().len() < old(self).bound() ==> sent == Ok::<(), Args>(())
                && final(self).queued() == old(self).queued().push(t),
            old(self).queued().len() >= old(self).bound() ==> sent == Err::<(), Args>(t)
                && final(self).queued() == old(self).queued(),
    {
        if self.queue.len() < self.bound {
            self.queue.push_back(t);
            Ok(())
        } else {
            Err(t)
        }
    }

    /// The number of queued events.
    pub fn len(&self) -> (n: usize)
        ensures
            n == self.queued().len(),
            self.wf() ==> n <= self.bound(),
    {
        self.queue.len()
    }
}

impl<Args: Send> Notifier<Args> for MpscNotifier<Args> {
    open spec fn pending(&self) -> Seq<Args> {
        self.queued()
    }

    fn has_notified(&mut self) -> (event: Option<Args>)
        ensures
            old(self).wf() ==> final(self).wf(),
            final(self).bound() == old(self).bound(),
    {
        let event = self.queue.pop_front();
        proof {
            let before = old(self).queue@;
            if before.len() > 0 {
                assert(before.subrange(1, before.len() as int) =~= before.skip(1));
            }
            assert(old(self).pending() == before);
            assert(self.pending() == after_poll(before));
        }
        event
    }
}

/// A notifier that is fed by asking a function, tick by tick, whether
/// something has happened. What the function reports is queued, up to ten
/// events, until it is polled.
#[verifier::reject_recursive_types(Args)]
pub struct NotifierPoller<Args, F: Fn() -> Option<Args>> {
    inner_rx: MpscNotifier<Args>,
    source: F,
}

impl<Args, F: Fn() -> Option<Args>> NotifierPoller<Args, F> {
    /// The function that is asked.
    pub closed spec fn source(&self) -> F {
        self.source
    }

    /// The most events that wait to be polled.
    pub closed spec fn bound(&self) -> nat {
        self.inner_rx.bound()
    }

    /// The events that wait to be polled, oldest first.
    pub closed spec fn queued(&self) -> Seq<Args> {
        self.inner_rx.queued()
    }

    /// The queue holds no more events than its bound.
    pub closed spec fn wf(&self) -> bool {
        self.inner_rx.wf()
    }

    /// What a tick does with what the function reported: an event is queued
    /// behind the others where there is room, and dropped where there is none.
    pub open spec fn fed(before: Seq<Args>, bound: nat, polled: Option<Args>) -> Seq<Args> {
        match polled {
            Some(t) => after_sends(before, bound, seq![t]),
            None => before,
        }
    }

    /// A notifier fed by `f`, with nothing queued.
    pub fn new(f: F) -> (notifier: Self)
        ensures
            notifier.wf(),
            notifier.source() == f,
            notifier.bound() == 10,
            notifier.queued() == Seq::<Args>::empty(),
    {
        NotifierPoller { inner_rx: MpscNotifier::new(10), source: f }
    }

    /// One tick: asks the function once and queues what it reported, without
    /// waiting. Returns whether an event was queued.
    pub fn tick(&mut self) -> (queued: bool)
        requires
            call_requires(old(self).source(), ()),
        ensures
            old(self).wf() ==> final(self).wf(),
            final(self).source() == old(self).source(),
            final(self).bound() == old(self).bound(),
            exists|polled: Option<Args>|
                call_ensures(old(self).source(), (), polled) && final(self).queued() == Self::fed(
                    old(self).queued(),
                    old(self).bound(),
                    polled,
                ) && queued == (polled is Some && old(self).queued().len() < old(self).bound()),
    {
        let polled = (self.source)();
        let ghost reported = polled;
        let queued = match polled {
            Some(t) => {
                proof {
                    reveal_with_fuel(after_sends, 2);
                    assert(seq![t].drop_last() =~= Seq::<Args>::empty());
                }
                self.inner_rx.send(t).is_ok()
            },
            None => false,
        };
        assert(call_ensures(old(self).source(), (), reported) && self.queued() == Self::fed(
            old(self).queued(),
            old(self).bound(),
            reported,
        ) && queued == (reported is Some && old(self).queued().len() < old(self).bound()));
        queued
    }
}

impl<Args: Send, F: Fn() -> Option<Args> + Send> Notifier<Args> for NotifierPoller<Args, F> {
    open spec fn pending(&self) -> Seq<Args> {
        self.queued()
    }

    fn has_notified(&mut self) -> (event: Option<Args>)
        ensures
            old(self).wf() ==> final(self).wf(),
            final(self).source() == old(self).source(),
            final(self).bound() == old(self).bound(),
    {
        self.inner_rx.has_notified()
    }
}

/// What a queue holds after producers have tried to send each of `items` in
/// turn to a queue that held `q` and takes at most `bound` events.
pub open spec fn after_sends<T>(q: Seq<T>, bound: nat, items: Seq<T>) -> Seq<T>
    decreases items.len(),
{
    if items.len() == 0 {
        q
    } else {
        let earlier = after_sends(q, bound, items.drop_last());
        if earlier.len() < bound {
            earlier.push(items.last())
        } else {
            earlier
        }
    }
}

/// Polls hand out the queued events one per poll, oldest first, and nothing
/// once the queue is empty.
pub proof fn law_polls_in_order<T>(q: Seq<T>, n: nat)
    ensures
        after_polls(q, n) == (if n <= q.len() {
            q.skip(n as int)
        } else {
            Seq::empty()
        }),
        nth_event(q, n) == (if n < q.len() {
            Some(q[n as int])
        } else {
            None
        }),
    decreases n,
{
    if n == 0 {
        assert(q.skip(0) =~= q);
    } else {
        law_polls_in_order(after_poll(q), (n - 1) as nat);
        if q.len() > 0 {
            if n <= q.len() {
                assert(q.skip(1).skip(n - 1) =~= q.skip(n as int));
            }
        } else {
            assert(q =~= Seq::empty());
        }
    }
}

/// Of all the polls of a one-shot notifier exactly the first hands out its
/// event; every later poll hands out nothing.
pub proof fn law_once_fires_once<Args: Send>(notifier: OnceNotifier<Args>, n: nat)
    ensures
        nth_event(notifier.pending(), n) == (if n == 0 {
            notifier.0
        } else {
            None
        }),
{
    law_polls_in_order(notifier.pending(), n);
}

/// Sends that fit the bound queue up behind what is queued, in the order of
/// sending.
pub proof fn law_sends_queue_up<T>(q: Seq<T>, bound: nat, items: Seq<T>)
    requires
        q.len() + items.len() <= bound,
    ensures
        after_sends(q, bound, items) == q + items,
    decreases items.len(),
{
    if items.len() == 0 {
        assert(q + items =~= q);
    } else {
        law_sends_queue_up(q, bound, items.drop_last());
        assert((q + items.drop_last()).push(items.last()) =~= q + items);
    }
}

/// A channel hands out what was sent to it in the order of sending, one
/// event per poll, and nothing when it is empty.
pub proof fn law_channel_is_fifo<T>(bound: nat, items: Seq<T>, n: nat)
    requires
        items.len() <= bound,
    ensures
        nth_event(after_sends(Seq::empty(), bound, items), n) == (if n < items.len() {
            Some(items[n as int])
        } else {
            None
        }),
{
    law_sends_queue_up(Seq::empty(), bound, items);
    assert(Seq::<T>::empty() + items =~= items);
    law_polls_in_order(items, n);
}

} // verus!
