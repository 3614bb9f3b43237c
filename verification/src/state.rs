use vstd::prelude::*;

use crate::event::Event;

verus! {

/// The abstract state of a lazy wrapper, as the contracts see it.
///
/// `Uninitialized` holds the caller's argument bundle, still pending.
/// `Ready` describes the constructed handler by the bundle it was built from
/// and the callbacks forwarded to it so far, oldest first. A wrapper starts
/// `Uninitialized` and moves to `Ready` exactly once, on the first activation
/// callback; the illegal shapes of a two-slot representation (bundle and
/// handler both present, or both absent) have no counterpart here.
pub enum LazyState<A, E> {
    Uninitialized { args: A },
    Ready { args: A, received: Seq<Event<E>> },
}

/// The deliveries the checked wrapper accepts: everything except a second
/// activation. Activation with no pending bundle means the host delivered
/// activation twice, a contract violation the wrapper treats as fatal rather
/// than silently constructing a second handler.
pub open spec fn checked_allows<A, E>(s: LazyState<A, E>, event: Event<E>) -> bool {
    !(s is Ready && event is Resumed)
}

/// The deliveries the unchecked wrapper accepts: the activation callback
/// exactly once, before everything else. This is the ordering guarantee the
/// host owes the unchecked wrapper in exchange for forwarding without a
/// presence check.
pub open spec fn unchecked_allows<A, E>(s: LazyState<A, E>, event: Event<E>) -> bool {
    s is Uninitialized <==> event is Resumed
}

/// The transition a wrapper makes on one delivered callback.
///
/// Before activation, a non-activation callback is dropped. The first
/// activation consumes the bundle, builds the handler from it and forwards
/// the activation callback to the new handler. Once ready, every callback is
/// forwarded verbatim, in delivery order. Both wrapper variants make exactly
/// this transition; they differ only in which deliveries they accept.
pub open spec fn step<A, E>(s: LazyState<A, E>, event: Event<E>) -> LazyState<A, E> {
    match s {
        LazyState::Uninitialized { args } => {
            if event is Resumed {
                LazyState::Ready { args, received: seq![event] }
            } else {
                s
            }
        },
        LazyState::Ready { args, received } => LazyState::Ready {
            args,
            received: received.push(event),
        },
    }
}

/// The state a wrapper reaches after a whole sequence of deliveries, first
/// element delivered first.
pub open spec fn run<A, E>(s: LazyState<A, E>, events: Seq<Event<E>>) -> LazyState<A, E>
    decreases events.len(),
{
    if events.len() == 0 {
        s
    } else {
        run(step(s, events[0]), events.skip(1))
    }
}

/// Once ready, callbacks are forwarded one-for-one and in order: delivering
/// `events` to a wrapper whose handler has already received `received`
/// leaves the handler having received exactly `received + events`, with the
/// bundle it was built from unchanged. No callback is dropped, buffered,
/// duplicated or reordered.
pub proof fn lemma_ready_forwards_in_order<A, E>(
    args: A,
    received: Seq<Event<E>>,
    events: Seq<Event<E>>,
)
    ensures
        run(LazyState::Ready { args, received }, events) == (LazyState::Ready {
            args,
            received: received + events,
        }),
    decreases events.len(),
{
    if events.len() == 0 {
        assert(received + events =~= received);
    } else {
        lemma_ready_forwards_in_order(args, received.push(events[0]), events.skip(1));
        assert(received.push(events[0]) + events.skip(1) =~= received + events);
    }
}

/// A lazily constructed handler under a well-behaved host — activation first,
/// then only non-activation callbacks — is built exactly once, from the
/// originally supplied argument bundle, and receives exactly the delivered
/// callbacks in delivery order, the activation callback first among them.
pub proof fn lemma_activation_first_run<A, E>(args: A, events: Seq<Event<E>>)
    requires
        events.len() > 0,
        events[0] is Resumed,
        forall|i: int| 1 <= i < events.len() ==> !(#[trigger] events[i] is Resumed),
    ensures
        run(LazyState::Uninitialized { args }, events) == (LazyState::Ready {
            args,
            received: events,
        }),
{
    lemma_ready_forwards_in_order(args, seq![events[0]], events.skip(1));
    assert(seq![events[0]] + events.skip(1) =~= events);
}

/// Non-activation callbacks delivered to the checked wrapper before any
/// activation are dropped without error: they leave the wrapper exactly as
/// constructed, bundle still pending and no handler built.
pub proof fn lemma_dropped_before_activation<A, E>(args: A, events: Seq<Event<E>>)
    requires
        forall|i: int| 0 <= i < events.len() ==> !(#[trigger] events[i] is Resumed),
    ensures
        run(LazyState::Uninitialized { args }, events) == (LazyState::<A, E>::Uninitialized {
            args,
        }),
    decreases events.len(),
{
    if events.len() > 0 {
        assert(forall|i: int|
            0 <= i < events.skip(1).len() ==> !(#[trigger] events.skip(1)[i] is Resumed)) by {
            assert(forall|i: int| 0 <= i < events.skip(1).len() ==> events.skip(1)[i] == #[trigger] events[i + 1]);
        }
        lemma_dropped_before_activation(args, events.skip(1));
    }
}

/// Once ready, the two wrapper variants are behaviorally equivalent: they
/// accept exactly the same deliveries — every callback but a second
/// activation — and both make the transition [`step`], so they forward
/// identically.
pub proof fn lemma_variants_agree_once_ready<A, E>(s: LazyState<A, E>, event: Event<E>)
    requires
        s is Ready,
    ensures
        checked_allows(s, event) <==> unchecked_allows(s, event),
        checked_allows(s, event) <==> !(event is Resumed),
{
}

/// Delivering activation to a wrapper that is already ready is a host
/// contract violation: neither wrapper variant accepts it, so a second
/// activation can never silently construct the handler a second time.
pub proof fn lemma_second_activation_rejected<A, E>(s: LazyState<A, E>, event: Event<E>)
    requires
        s is Ready,
        event is Resumed,
    ensures
        !checked_allows(s, event),
        !unchecked_allows(s, event),
{
}

} // verus!
