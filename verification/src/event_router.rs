use vstd::prelude::*;

use crate::context::FromContext;
use crate::events::router::{all_accept, fans_out, Router};
use crate::events::{DomainEvent, EventId, Handler};

verus! {

/// `job` is an invocation that a handler of type `H`, built from `ctx`, may
/// start on `event`.
pub open spec fn built_and_handled<C, H>(ctx: &C, event: H::Event, job: H::Invocation) -> bool where
    H: Handler + FromContext<C>,
 {
    exists|handler: H|
        call_ensures(H::from_context, (ctx,), handler) && call_ensures(
            H::handle,
            (handler, event),
            job,
        )
}

/// The descriptor of handler type `H`: builds a handler from `ctx` and
/// starts it on `event`. It may be called with any context and any event.
pub fn caller<C, H>(ctx: &C, event: H::Event) -> (job: H::Invocation) where
    H: Handler + FromContext<C>,

    ensures
        built_and_handled::<C, H>(ctx, event, job),
{
    let handler = H::from_context(ctx);
    let job = handler.handle(event);
    job
}

/// The registry of `Router`, with `register` and `handle` for `add` and
/// `call`.
pub struct EventRouter<F> {
    router: Router<F>,
}

impl<F> View for EventRouter<F> {
    type V = Map<EventId, Seq<F>>;

    closed spec fn view(&self) -> Map<EventId, Seq<F>> {
        self.router@
    }
}

impl<F> Default for EventRouter<F> {
    /// A router with no handler registered.
    fn default() -> (router: Self)
        ensures
            router@ == Map::<EventId, Seq<F>>::empty(),
    {
        EventRouter { router: Router::default() }
    }
}

impl<F> EventRouter<F> {
    /// The handlers registered for `identity`, in registration order; empty
    /// where none is.
    pub open spec fn handlers(&self, identity: EventId) -> Seq<F> {
        if self@.contains_key(identity) {
            self@[identity]
        } else {
            Seq::empty()
        }
    }

    /// Registers `handler` for events of `identity`, behind the handlers
    /// registered for it before.
    pub fn register(&mut self, identity: EventId, handler: F)
        ensures
            final(self)@ == old(self)@.insert(
                identity,
                old(self).handlers(identity).push(handler),
            ),
    {
        self.router.add(identity, handler);
    }

    /// Fans an event of `identity` out: `None` where no handler is registered
    /// for it, else one invocation per registered handler, in registration
    /// order, each built from its own copy of `event`.
    pub fn dispatch<C, E, J>(&self, ctx: &C, identity: EventId, event: E) -> (job: Option<
        Vec<J>,
    >) where F: Fn(&C, E) -> J, E: Clone
        requires
            all_accept::<C, E, J, F>(self.handlers(identity), ctx),
        ensures
            job is None <==> self.handlers(identity).len() == 0,
            job matches Some(jobs) ==> fans_out(self.handlers(identity), ctx, event, jobs@),
    {
        self.router.dispatch(ctx, identity, event)
    }

    /// Fans `event` out to the handlers of the identity it reports: see
    /// `dispatch`.
    pub fn handle<C, E, J>(&self, ctx: &C, event: E) -> (job: Option<Vec<J>>) where
        F: Fn(&C, E) -> J,
        E: DomainEvent + Clone,

        requires
            forall|identity: EventId|
                all_accept::<C, E, J, F>(#[trigger] self.handlers(identity), ctx),
        ensures
            exists|identity: EventId|
                {
                    &&& call_ensures(E::identity, (&event,), identity)
                    &&& job is None <==> (#[trigger] self.handlers(identity)).len() == 0
                    &&& job matches Some(jobs) ==> fans_out(
                        self.handlers(identity),
                        ctx,
                        event,
                        jobs@,
                    )
                },
    {
        let identity = event.identity();
        self.dispatch(ctx, identity, event)
    }
}

} // verus!
