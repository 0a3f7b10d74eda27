use vstd::prelude::*;

use crate::context::{Context, ContextProvide, CreamContext, FromContext};
use crate::event_bus::{create, max_capacity, EventBusPort, EventBusSocket};
use crate::events::router::Router;
use crate::router_bus::RouterBus;
use crate::tasks::Tasks;

verus! {

/// The context that hands out ports of one mailbox.
#[verifier::reject_recursive_types(E)]
pub struct EventsContext<E> {
    port: EventBusPort<E>,
}

impl<E> EventsContext<E> {
    /// The capacity of the mailbox behind this context.
    pub closed spec fn bound(&self) -> nat {
        self.port.bound()
    }

    /// The port this context hands out clones of.
    pub closed spec fn source(&self) -> EventBusPort<E> {
        self.port
    }

    /// Another port on the context's mailbox: a clone of the context's own.
    pub fn port(&self) -> (port: EventBusPort<E>)
        ensures
            port.bound() == self.bound(),
            call_ensures(EventBusPort::<E>::clone, (&self.source(),), port),
    {
        self.port.clone()
    }
}

impl<E> Clone for EventsContext<E> {
    fn clone(&self) -> (ctx: Self)
        ensures
            ctx.bound() == self.bound(),
            call_ensures(EventBusPort::<E>::clone, (&self.source(),), ctx.source()),
    {
        EventsContext { port: self.port.clone() }
    }
}

impl<E> Context for EventsContext<E> {

}

impl<E> ContextProvide<EventBusPort<E>> for EventsContext<E> {
    /// Another port on the context's mailbox: what `port` gives.
    fn ctx_provide(&self) -> (service: EventBusPort<E>)
        ensures
            call_ensures(EventsContext::<E>::port, (self,), service),
    {
        self.port()
    }
}

/// Collects what a mailbox is made with.
pub struct EventsContextBuilder {
    channel_size: usize,
}

impl View for EventsContextBuilder {
    type V = usize;

    /// The capacity the mailbox will be made with.
    closed spec fn view(&self) -> usize {
        self.channel_size
    }
}

impl Default for EventsContextBuilder {
    /// A builder for a mailbox of capacity 10.
    fn default() -> (builder: Self)
        ensures
            builder@ == 10,
    {
        EventsContextBuilder { channel_size: 10 }
    }
}

impl EventsContextBuilder {
    /// Sets the capacity of the mailbox to `size`.
    pub fn with_channel_size(self, size: usize) -> (builder: Self)
        ensures
            builder@ == size,
    {
        let mut builder = self;
        builder.channel_size = size;
        builder
    }

    pub fn channel_size(&self) -> (size: usize)
        ensures
            size == self@,
    {
        self.channel_size
    }

    /// Makes the mailbox. The context gets the port and the setup the socket
    /// of one channel; the setup also gets the tracker that `cream_ctx`
    /// provides.
    pub fn build<E>(self, cream_ctx: &CreamContext) -> (made: (
        EventsContext<E>,
        EventsContextSetup<E>,
    ))
        requires
            0 < self@ <= max_capacity(),
        ensures
            made.0.bound() == self@,
            made.1.bound() == self@,
            !made.1.drained(),
            call_ensures(
                tokio::sync::mpsc::channel::<E>,
                (self@,),
                (made.0.source().sender(), made.1.mailbox().channel()),
            ),
            call_ensures(
                <Tasks as FromContext<CreamContext>>::from_context,
                (cream_ctx,),
                made.1.tracker(),
            ),
    {
        let tasks: Tasks = cream_ctx.provide();
        let (port, socket) = create(self.channel_size);
        let ctx = EventsContext { port };
        let setup = EventsContextSetup { socket, tasks };
        (ctx, setup)
    }
}

/// The receiving side of a mailbox that has no dispatch loop yet.
#[verifier::reject_recursive_types(E)]
pub struct EventsContextSetup<E> {
    socket: EventBusSocket<E>,
    tasks: Tasks,
}

impl<E> EventsContextSetup<E> {
    /// The capacity of the mailbox behind this setup.
    pub closed spec fn bound(&self) -> nat {
        self.socket.bound()
    }

    /// Whether the socket has reported the end of the stream.
    pub closed spec fn drained(&self) -> bool {
        self.socket.drained()
    }

    /// The socket that the dispatch loop will receive from.
    pub closed spec fn mailbox(&self) -> EventBusSocket<E> {
        self.socket
    }

    /// The tracker that the dispatch loop's jobs will go to.
    pub closed spec fn tracker(&self) -> Tasks {
        self.tasks
    }

    /// Puts `router` and `ctx` behind the socket. The dispatch loop that
    /// comes back has not run yet.
    pub fn setup<C, F>(self, router: Router<F>, ctx: C) -> (bus: RouterBus<C, E, F>)
        ensures
            bus.router() == router,
            bus.context() == ctx,
            bus.tracker() == self.tracker(),
            bus.mailbox() == self.mailbox(),
            bus.drained() == self.drained(),
    {
        RouterBus::new(self.socket, ctx, router, self.tasks)
    }
}

} // verus!
