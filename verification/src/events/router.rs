use std::collections::HashMap;
use vstd::prelude::*;

use crate::context::ContextProvide;
use crate::events::{DomainEvent, EventId, Handler};

verus! {

/// `handler` may be called with `ctx` and any event.
pub open spec fn accepts<C, E, J, F: Fn(&C, E) -> J>(handler: F, ctx: &C) -> bool {
    forall|event: E| call_requires(handler, (ctx, event))
}

/// Every handler of the sequence may be called with `ctx` and any event.
pub open spec fn all_accept<C, E, J, F: Fn(&C, E) -> J>(handlers: Seq<F>, ctx: &C) -> bool {
    forall|i: int| 0 <= i < handlers.len() ==> accepts::<C, E, J, F>(#[trigger] handlers[i], ctx)
}

/// `job` is an invocation that `handler` may build from `ctx` and a copy of
/// `event`.
pub open spec fn built_from<C, E: Clone, J, F: Fn(&C, E) -> J>(
    handler: F,
    ctx: &C,
    event: E,
    job: J,
) -> bool {
    exists|copy: E| cloned::<E>(event, copy) && call_ensures(handler, (ctx, copy), job)
}

/// `jobs` is the fan-out of `event` over `handlers`: one invocation for each
/// handler, in the handlers' order, each built from a copy of the event.
pub open spec fn fans_out<C, E: Clone, J, F: Fn(&C, E) -> J>(
    handlers: Seq<F>,
    ctx: &C,
    event: E,
    jobs: Seq<J>,
) -> bool {
    &&& jobs.len() == handlers.len()
    &&& forall|i: int|
        0 <= i < handlers.len() ==> built_from(handlers[i], ctx, event, #[trigger] jobs[i])
}

/// `job` is an invocation that a handler of type `H`, provided by `ctx`, may
/// start on `event`.
pub open spec fn provided_and_handled<C, H>(ctx: &C, event: H::Event, job: H::Invocation) -> bool where
    H: Handler,
    C: ContextProvide<H>,
 {
    exists|handler: H|
        call_ensures(C::ctx_provide, (ctx,), handler) && call_ensures(
            H::handle,
            (handler, event),
            job,
        )
}

/// The descriptor of handler type `H`: has `ctx` provide a handler and starts
/// it on `event`. It may be called with any context and any event.
pub fn caller<C, H>(ctx: &C, event: H::Event) -> (job: H::Invocation) where
    H: Handler,
    C: ContextProvide<H>,

    ensures
        provided_and_handled::<C, H>(ctx, event, job),
{
    let handler: H = ctx.ctx_provide();
    let job = handler.handle(event);
    job
}

/// The handlers registered for one event identity, in registration order.
pub struct EventHandlers<F> {
    identity: EventId,
    callers: Vec<F>,
}

impl<F> View for EventHandlers<F> {
    type V = Seq<F>;

    closed spec fn view(&self) -> Seq<F> {
        self.callers@
    }
}

impl<F> EventHandlers<F> {
    /// The identity whose events this set serves.
    pub closed spec fn event(&self) -> EventId {
        self.identity
    }

    /// An empty set for events of `identity`.
    pub fn new(identity: EventId) -> (set: Self)
        ensures
            set@ == Seq::<F>::empty(),
            set.event() == identity,
    {
        EventHandlers { identity, callers: Vec::new() }
    }

    pub fn identity(&self) -> (identity: EventId)
        ensures
            identity == self.event(),
    {
        self.identity
    }

    pub fn len(&self) -> (n: usize)
        ensures
            n == self@.len(),
    {
        self.callers.len()
    }

    /// Appends `handler` behind those registered before.
    pub fn add(&mut self, handler: F)
        ensures
            final(self)@ == old(self)@.push(handler),
            final(self).event() == old(self).event(),
    {
        self.callers.push(handler);
    }

    /// Builds one invocation per registered handler, in registration order,
    /// each from its own copy of `event`.
    pub fn call<C, E, J>(&self, ctx: &C, event: E) -> (jobs: Vec<J>) where
        F: Fn(&C, E) -> J,
        E: Clone,

        requires
            all_accept::<C, E, J, F>(self@, ctx),
        ensures
            fans_out(self@, ctx, event, jobs@),
    {
        let mut jobs: Vec<J> = Vec::new();
        let mut i: usize = 0;
        while i < self.callers.len()
            invariant
                i <= self.callers@.len(),
                jobs@.len() == i,
                all_accept::<C, E, J, F>(self.callers@, ctx),
                forall|k: int|
                    0 <= k < i ==> built_from(self.callers@[k], ctx, event, #[trigger] jobs@[k]),
            decreases self.callers@.len() - i,
        {
            let copy = event.clone();
            let job = (self.callers[i])(ctx, copy);
            assert(cloned::<E>(event, copy));
            jobs.push(job);
            i += 1;
        }
        jobs
    }
}

/// The registry: for each event identity the handlers registered for it.
/// It grows by registration only.
///
/// Every stored set carries the identity it is stored under and holds at least
/// one handler, so a lookup that hits always finds handlers of the event's own
/// identity.
pub struct Router<F> {
    sets: HashMap<EventId, EventHandlers<F>>,
}

impl<F> View for Router<F> {
    type V = Map<EventId, Seq<F>>;

    closed spec fn view(&self) -> Map<EventId, Seq<F>> {
        Map::new(|id: EventId| self.sets@.contains_key(id), |id: EventId| self.sets@[id]@)
    }
}

impl<F> Default for Router<F> {
    /// A router with no handler registered.
    fn default() -> (router: Self)
        ensures
            router@ == Map::<EventId, Seq<F>>::empty(),
    {
        let router = Router { sets: HashMap::new() };
        router
    }
}

impl<F> Router<F> {
    #[verifier::type_invariant]
    spec fn well_formed(self) -> bool {
        forall|id: EventId| #[trigger]
            self.sets@.contains_key(id) ==> self.sets@[id].event() == id && self.sets@[id]@.len()
                > 0
    }

    /// The handlers registered for `identity`, in registration order; empty
    /// where none is.
    pub open spec fn handlers(&self, identity: EventId) -> Seq<F> {
        if self@.contains_key(identity) {
            self@[identity]
        } else {
            Seq::empty()
        }
    }

    /// Registers `handler` for events of `identity`, behind the handlers
    /// registered for it before. The first registration creates the set.
    pub fn add(&mut self, identity: EventId, handler: F)
        ensures
            final(self)@ == old(self)@.insert(
                identity,
                old(self).handlers(identity).push(handler),
            ),
    {
        broadcast use vstd::std_specs::hash::group_hash_axioms;

        proof {
            use_type_invariant(&*self);
        }
        let mut sets: HashMap<EventId, EventHandlers<F>> = HashMap::new();
        std::mem::swap(&mut self.sets, &mut sets);
        let mut set = match sets.remove(&identity) {
            Some(set) => set,
            None => EventHandlers::new(identity),
        };
        set.add(handler);
        sets.insert(identity, set);
        self.sets = sets;
    }

    /// Whether any handler is registered for `identity`.
    pub fn routes(&self, identity: EventId) -> (hit: bool)
        ensures
            hit == self@.contains_key(identity),
            hit == (self.handlers(identity).len() > 0),
    {
        broadcast use vstd::std_specs::hash::group_hash_axioms;

        proof {
            use_type_invariant(self);
        }
        self.sets.contains_key(&identity)
    }

    /// The number of handlers registered for `identity`.
    pub fn count(&self, identity: EventId) -> (n: usize)
        ensures
            n == self.handlers(identity).len(),
    {
        broadcast use vstd::std_specs::hash::group_hash_axioms;

        match self.sets.get(&identity) {
            Some(set) => set.len(),
            None => 0,
        }
    }

    /// Fans an event of `identity` out: `None` where no handler is registered
    /// for it, else one invocation per registered handler, in registration
    /// order, each built from its own copy of `event`.
    pub fn dispatch<C, E, J>(&self, ctx: &C, identity: EventId, event: E) -> (job: Option<
        Vec<J>,
    >) where F: Fn(&C, E) -> J, E: Clone
        requires
            all_accept::<C, E, J, F>(self.handlers(identity), ctx),
        ensures
            job is None <==> self.handlers(identity).len() == 0,
            job matches Some(jobs) ==> fans_out(self.handlers(identity), ctx, event, jobs@),
    {
        broadcast use vstd::std_specs::hash::group_hash_axioms;

        proof {
            use_type_invariant(self);
        }
        match self.sets.get(&identity) {
            Some(set) => Some(set.call(ctx, event)),
            None => None,
        }
    }

    /// Fans `event` out to the handlers of the identity it reports: see
    /// `dispatch`.
    pub fn call<C, E, J>(&self, ctx: &C, event: E) -> (job: Option<Vec<J>>) where
        F: Fn(&C, E) -> J,
        E: DomainEvent + Clone,

        requires
            forall|identity: EventId|
                all_accept::<C, E, J, F>(#[trigger] self.handlers(identity), ctx),
        ensures
            exists|identity: EventId|
                {
                    &&& call_ensures(E::identity, (&event,), identity)
                    &&& job is None <==> (#[trigger] self.handlers(identity)).len() == 0
                    &&& job matches Some(jobs) ==> fans_out(
                        self.handlers(identity),
                        ctx,
                        event,
                        jobs@,
                    )
                },
    {
        let identity = event.identity();
        self.dispatch(ctx, identity, event)
    }
}

/// Registration appends: if `after` is `before` with `handler` registered for
/// `identity`, then a fan-out of `after` for that identity is a fan-out of
/// `before` followed by one invocation of `handler`.
pub proof fn law_registration_appends<C, E: Clone, J, F: Fn(&C, E) -> J>(
    before: Router<F>,
    after: Router<F>,
    identity: EventId,
    handler: F,
    ctx: &C,
    event: E,
    jobs: Seq<J>,
)
    requires
        after@ == before@.insert(identity, before.handlers(identity).push(handler)),
        fans_out(after.handlers(identity), ctx, event, jobs),
    ensures
        jobs.len() == before.handlers(identity).len() + 1,
        fans_out(before.handlers(identity), ctx, event, jobs.drop_last()),
        built_from(handler, ctx, event, jobs.last()),
{
}

/// Registration for one identity leaves every other identity's handlers as
/// they were.
pub proof fn law_registration_is_local<F>(
    before: Router<F>,
    after: Router<F>,
    identity: EventId,
    handler: F,
    other: EventId,
)
    requires
        after@ == before@.insert(identity, before.handlers(identity).push(handler)),
        other != identity,
    ensures
        after.handlers(other) == before.handlers(other),
{
}

/// A router that was only ever registered into routes an identity exactly if
/// a handler was registered for it: registering `handler` makes `identity`
/// routed, with one handler more than before.
pub proof fn law_registration_routes<F>(
    before: Router<F>,
    after: Router<F>,
    identity: EventId,
    handler: F,
)
    requires
        after@ == before@.insert(identity, before.handlers(identity).push(handler)),
    ensures
        after.handlers(identity).len() == before.handlers(identity).len() + 1,
        after.handlers(identity).last() == handler,
{
}

} // verus!
