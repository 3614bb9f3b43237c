use vstd::prelude::*;

use crate::application_init::ApplicationInit;
use crate::event::Event;

verus! {

/// A handler that remembers what it was built from and every callback
/// forwarded to it, in order, and does nothing else.
///
/// It is the simplest handler satisfying [`ApplicationInit`], with `()`
/// standing in for the loop context, and lets the wrappers be driven and
/// observed without a real host loop.
pub struct RecordingHandler<E, A> {
    args: A,
    events: Vec<Event<E>>,
}

impl<E, A> ApplicationInit for RecordingHandler<E, A> {
    type Args = A;

    type Context = ();

    type UserEvent = E;

    closed spec fn init_args(&self) -> A {
        self.args
    }

    closed spec fn received(&self) -> Seq<Event<E>> {
        self.events@
    }

    fn new(_event_loop: &(), args: A) -> Self {
        RecordingHandler { args, events: Vec::new() }
    }

    fn handle_event(&mut self, _event_loop: &(), event: Event<E>) {
        self.events.push(event);
    }
}

impl<E, A> RecordingHandler<E, A> {
    /// The callbacks received so far, oldest first.
    pub fn events(&self) -> (r: &Vec<Event<E>>)
        ensures
            r@ == self.received(),
    {
        &self.events
    }

    /// The argument bundle this handler was built from.
    pub fn args(&self) -> (r: &A)
        ensures
            *r == self.init_args(),
    {
        &self.args
    }
}

} // verus!
