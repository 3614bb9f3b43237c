use vstd::prelude::*;

use crate::application_init::ApplicationInit;
use crate::event::Event;
use crate::state::LazyState;
use crate::state::step;
use crate::state::unchecked_allows;
use vstd::pervasive::unreached;

verus! {

/// The unchecked lazy wrapper around an application handler.
///
/// Same lifecycle as [`App`]: the argument bundle is held until the first
/// activation callback, the handler is built from it exactly once, and every
/// later callback is forwarded verbatim. The difference is the forwarding
/// discipline before construction: instead of checking whether the handler
/// exists, this variant makes its presence a precondition, so the
/// no-handler path is proved unreachable rather than tested at run time.
/// The precondition is the host ordering guarantee itself — activation
/// arrives exactly once, before every other callback — and a caller outside
/// these proofs carries the burden of meeting it; a host that breaks it must
/// be treated as a fatal contract violation, not a recoverable error.
///
/// [`App`]: crate::App
pub struct UnsafeApp<T, S> {
    pending_args: Option<S>,
    handler: Option<T>,
}

impl<T: ApplicationInit> vstd::view::View for UnsafeApp<T, T::Args> {
    type V = LazyState<T::Args, T::UserEvent>;

    /// The wrapper's state as the contracts see it: the pending bundle
    /// before activation, or the handler's history after it.
    closed spec fn view(&self) -> LazyState<T::Args, T::UserEvent> {
        match self.handler {
            Some(h) => LazyState::Ready { args: h.init_args(), received: h.received() },
            None => LazyState::Uninitialized { args: self.pending_args.unwrap() },
        }
    }
}

impl<T: ApplicationInit> UnsafeApp<T, T::Args> {
    /// Exactly one of the two slots is occupied: the pending bundle before
    /// activation, the constructed handler after it.
    pub closed spec fn wf(&self) -> bool {
        self.pending_args.is_some() <==> self.handler.is_none()
    }

    /// Store the bundle as pending; no handler exists yet.
    pub fn new(args: T::Args) -> (r: Self)
        ensures
            r.wf(),
            r@ == (LazyState::<T::Args, T::UserEvent>::Uninitialized { args }),
    {
        UnsafeApp { pending_args: Some(args), handler: None }
    }

    /// Whether the handler has been constructed.
    pub fn is_ready(&self) -> (r: bool)
        ensures
            r == (self@ is Ready),
    {
        self.handler.is_some()
    }

    /// The constructed handler, or `None` before activation.
    pub fn handler(&self) -> (r: Option<&T>)
        ensures
            match r {
                Some(h) => (self@ matches LazyState::Ready { args, received } && h.init_args()
                    == args && h.received() == received),
                None => self@ is Uninitialized,
            },
    {
        match &self.handler {
            Some(h) => Some(h),
            None => None,
        }
    }

    /// Deliver one callback to the wrapper.
    ///
    /// The first activation consumes the pending bundle, constructs the
    /// handler, and forwards the activation callback to the fresh handler so
    /// its own activation-time setup still runs. Every other callback is
    /// forwarded directly: the precondition guarantees the handler exists,
    /// so the absent-handler arm is proved unreachable instead of being a
    /// defensive no-op. An unverified caller must check [`Self::is_ready`]
    /// against the callback kind first and treat a mismatch as fatal, since
    /// it means the host broke its ordering guarantee.
    pub fn handle_event(&mut self, event_loop: &T::Context, event: Event<T::UserEvent>)
        requires
            old(self).wf(),
            unchecked_allows(old(self)@, event),
        ensures
            final(self).wf(),
            final(self)@ == step(old(self)@, event),
    {
        if matches!(event, Event::Resumed) {
            let args = self.pending_args.take().unwrap();
            let mut handler = T::new(event_loop, args);
            handler.handle_event(event_loop, event);
            self.handler = Some(handler);
        } else {
            match &mut self.handler {
                Some(handler) => {
                    handler.handle_event(event_loop, event);
                },
                None => unreached(),
            }
        }
    }
}

} // verus!
