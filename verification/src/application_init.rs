use vstd::prelude::*;

use crate::event::Event;

verus! {

/// The contract of a lazily constructed application handler: it can build
/// itself from activation-time context plus an owned argument bundle, and it
/// responds to every callback the host loop can deliver.
///
/// The two spec functions are the handler's observable history, which the
/// wrappers' contracts are stated over: the bundle it was built from and the
/// callbacks forwarded to it so far. Construction has no error channel; a
/// handler that cannot acquire its resources must treat that as fatal
/// itself, since an activation-context failure is unrecoverable for a
/// windowed session.
pub trait ApplicationInit: Sized {
    /// The arguments used to create the application.
    type Args;

    /// The handle to the active event-loop context that the host passes into
    /// every callback. Opaque to this crate; a host binding picks it.
    type Context;

    /// The application-defined event type.
    type UserEvent;

    /// The argument bundle this handler was constructed from.
    spec fn init_args(&self) -> Self::Args;

    /// The callbacks this handler has received so far, oldest first.
    spec fn received(&self) -> Seq<Event<Self::UserEvent>>;

    /// Construct the handler from the activation-time context and the
    /// caller's argument bundle.
    fn new(event_loop: &Self::Context, args: Self::Args) -> (r: Self)
        ensures
            r.init_args() == args,
            r.received() == Seq::<Event<Self::UserEvent>>::empty(),
    ;

    /// Respond to one callback delivered by the host loop.
    fn handle_event(&mut self, event_loop: &Self::Context, event: Event<Self::UserEvent>)
        ensures
            final(self).init_args() == old(self).init_args(),
            final(self).received() == old(self).received().push(event),
    ;
}

} // verus!
