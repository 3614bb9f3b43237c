use vstd::prelude::*;

use crate::application_init::ApplicationInit;
use crate::event::Event;
use crate::state::LazyState;
use crate::state::checked_allows;
use crate::state::step;

verus! {

/// The checked lazy wrapper around an application handler.
///
/// It holds the caller's argument bundle until the host loop delivers its
/// first activation callback, builds the handler from the bundle at that
/// moment, and from then on forwards every callback to the handler verbatim.
/// Any callback that arrives before the handler exists is dropped silently:
/// that defensive no-op is what this variant buys over [`UnsafeApp`] at the
/// price of one presence check per callback.
///
/// [`UnsafeApp`]: crate::UnsafeApp
pub struct App<T, A> {
    pending_args: Option<A>,
    handler: Option<T>,
}

impl<T: ApplicationInit> vstd::view::View for App<T, T::Args> {
    type V = LazyState<T::Args, T::UserEvent>;

    /// The wrapper's state as the contracts see it: the pending bundle
    /// before activation, or the handler's history after it.
    closed spec fn view(&self) -> LazyState<T::Args, T::UserEvent> {
        match self.handler {
            Some(h) => LazyState::Ready { args: h.init_args(), received: h.received() },
            None => LazyState::Uninitialized { args: self.pending_args.unwrap() },
        }
    }
}

impl<T: ApplicationInit> App<T, T::Args> {
    /// Exactly one of the two slots is occupied: the pending bundle before
    /// activation, the constructed handler after it.
    pub closed spec fn wf(&self) -> bool {
        self.pending_args.is_some() <==> self.handler.is_none()
    }

    /// Store the bundle as pending; no handler exists yet.
    pub fn new(args: T::Args) -> (r: Self)
        ensures
            r.wf(),
            r@ == (LazyState::<T::Args, T::UserEvent>::Uninitialized { args }),
    {
        App { pending_args: Some(args), handler: None }
    }

    /// Whether the handler has been constructed.
    pub fn is_ready(&self) -> (r: bool)
        ensures
            r == (self@ is Ready),
    {
        self.handler.is_some()
    }

    /// The constructed handler, or `None` before activation.
    pub fn handler(&self) -> (r: Option<&T>)
        ensures
            match r {
                Some(h) => (self@ matches LazyState::Ready { args, received } && h.init_args()
                    == args && h.received() == received),
                None => self@ is Uninitialized,
            },
    {
        match &self.handler {
            Some(h) => Some(h),
            None => None,
        }
    }

    /// Deliver one callback to the wrapper.
    ///
    /// Before activation, a non-activation callback is dropped without
    /// touching either slot. The first activation consumes the pending
    /// bundle, constructs the handler, and forwards the activation callback
    /// to the fresh handler so its own activation-time setup still runs.
    /// Once the handler exists, every callback is forwarded to it, in
    /// delivery order. Activation with no pending bundle means the host
    /// delivered activation twice; that is a host contract violation,
    /// excluded here by precondition, and an unverified caller must check
    /// [`Self::is_ready`] first and treat that case as fatal.
    pub fn handle_event(&mut self, event_loop: &T::Context, event: Event<T::UserEvent>)
        requires
            old(self).wf(),
            checked_allows(old(self)@, event),
        ensures
            final(self).wf(),
            final(self)@ == step(old(self)@, event),
    {
        match &mut self.handler {
            Some(handler) => {
                handler.handle_event(event_loop, event);
            },
            None => {
                if matches!(event, Event::Resumed) {
                    let args = self.pending_args.take().unwrap();
                    let mut handler = T::new(event_loop, args);
                    handler.handle_event(event_loop, event);
                    self.handler = Some(handler);
                }
            },
        }
    }
}

} // verus!
