use vstd::prelude::*;

use crate::event_bus::{EventBusSocket, Polled};
use crate::events::router::{all_accept, fans_out, Router};
use crate::events::{describe, describes, DomainEvent, EventId, EventInfo};
use crate::tasks::Tasks;

verus! {

/// Where the dispatch loop stands.
#[derive(Debug, PartialEq, Eq, Clone, Copy)]
pub enum BusState {
    /// Waiting for the next event.
    Running,
    /// The stream has ended. There is no way back.
    Stopped,
}

/// What the dispatch loop does with what it received.
pub enum Step<J> {
    /// Hand these invocations to the task tracker, and go on without waiting
    /// for them.
    Dispatch(Vec<J>),
    /// No handler is registered for this event: warn, and go on.
    Unroutable(EventInfo),
    /// The stream has ended: stop.
    Stop,
}

/// `step` is what a loop with this router and context does with `event`,
/// which describes itself as `info`.
pub open spec fn routed<C, E: Clone, J, F: Fn(&C, E) -> J>(
    router: Router<F>,
    ctx: &C,
    info: EventInfo,
    event: E,
    step: Step<J>,
) -> bool {
    if router.handlers(info.identity).len() == 0 {
        step == Step::<J>::Unroutable(info)
    } else {
        step matches Step::Dispatch(jobs) && fans_out(
            router.handlers(info.identity),
            ctx,
            event,
            jobs@,
        )
    }
}

/// The dispatch loop's state: the socket it receives from, the router and
/// context it dispatches with, and the tracker its jobs go to.
#[verifier::reject_recursive_types(E)]
pub struct RouterBus<C, E, F> {
    recv: EventBusSocket<E>,
    ctx: C,
    router: Router<F>,
    tasks: Tasks,
}

impl<C, E, F> RouterBus<C, E, F> {
    pub closed spec fn router(&self) -> Router<F> {
        self.router
    }

    pub closed spec fn context(&self) -> C {
        self.ctx
    }

    /// Whether the socket has reported the end of the stream.
    pub closed spec fn drained(&self) -> bool {
        self.recv.drained()
    }

    /// The tracker this loop was made with.
    pub closed spec fn tracker(&self) -> Tasks {
        self.tasks
    }

    /// The socket this loop receives from.
    pub closed spec fn mailbox(&self) -> EventBusSocket<E> {
        self.recv
    }

    /// The loop runs until the stream ends, and is stopped from then on.
    pub open spec fn state(&self) -> BusState {
        if self.drained() {
            BusState::Stopped
        } else {
            BusState::Running
        }
    }

    pub fn new(socket: EventBusSocket<E>, ctx: C, router: Router<F>, tasks: Tasks) -> (bus: Self)
        ensures
            bus.router() == router,
            bus.context() == ctx,
            bus.tracker() == tasks,
            bus.mailbox() == socket,
            bus.drained() == socket.drained(),
    {
        RouterBus { recv: socket, ctx, router, tasks }
    }

    pub fn current_state(&self) -> (state: BusState)
        ensures
            state == self.state(),
    {
        if self.recv.is_drained() {
            BusState::Stopped
        } else {
            BusState::Running
        }
    }

    /// Decides what to do with an event that describes itself as `info`:
    /// warn where no handler is registered for its identity, else dispatch
    /// one invocation per registered handler.
    pub fn route<J>(&self, info: EventInfo, event: E) -> (step: Step<J>) where
        F: Fn(&C, E) -> J,
        E: Clone,

        requires
            all_accept::<C, E, J, F>(self.router().handlers(info.identity), &self.context()),
        ensures
            routed(self.router(), &self.context(), info, event, step),
    {
        match self.router.dispatch(&self.ctx, info.identity, event) {
            Some(jobs) => Step::Dispatch(jobs),
            None => Step::Unroutable(info),
        }
    }

    /// One turn of the loop, given what the awaited receive returned: `None`
    /// stops the loop for good; an event is routed by the identity it
    /// reports, and the loop stays running whether or not a handler was
    /// found.
    pub fn listen_once<J>(&mut self, received: Option<E>) -> (step: Step<J>) where
        F: Fn(&C, E) -> J,
        E: DomainEvent + Clone,

        requires
            old(self).state() is Running,
            forall|identity: EventId|
                all_accept::<C, E, J, F>(
                    #[trigger] old(self).router().handlers(identity),
                    &old(self).context(),
                ),
        ensures
            final(self).router() == old(self).router(),
            final(self).context() == old(self).context(),
            final(self).tracker() == old(self).tracker(),
            final(self).mailbox().channel() == old(self).mailbox().channel(),
            final(self).mailbox().bound() == old(self).mailbox().bound(),
            received is None ==> step is Stop && final(self).state() is Stopped,
            received matches Some(event) ==> final(self).state() is Running && exists|
                info: EventInfo,
            |
                describes(&event, info) && #[trigger] routed(
                    old(self).router(),
                    &old(self).context(),
                    info,
                    event,
                    step,
                ),
    {
        match self.recv.deliver(received) {
            Polled::Event(event) => {
                let info = describe(&event);
                assert(all_accept::<C, E, J, F>(
                    old(self).router().handlers(info.identity),
                    &old(self).context(),
                ));
                self.route(info, event)
            },
            _ => Step::Stop,
        }
    }

    /// The socket, for the caller that awaits on it.
    pub fn socket(&mut self) -> (socket: &mut EventBusSocket<E>)
        ensures
            *socket == old(self).mailbox(),
            final(self).mailbox() == *final(socket),
            socket.drained() == old(self).drained(),
            final(self).drained() == final(socket).drained(),
            final(self).router() == old(self).router(),
            final(self).context() == old(self).context(),
            final(self).tracker() == old(self).tracker(),
    {
        &mut self.recv
    }

    /// The tracker that dispatched invocations go to.
    pub fn tasks(&self) -> (tasks: &Tasks)
        ensures
            *tasks == self.tracker(),
    {
        &self.tasks
    }
}

} // verus!
