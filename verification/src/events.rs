use vstd::prelude::*;

pub mod router;

verus! {

/// The stable key of one concrete event type. Handlers are registered and
/// events are routed by this key alone.
pub type EventId = u64;

/// The type-level side of an event: which identity it is routed by.
pub trait DynEvent {
    fn identity(&self) -> EventId;
}

/// A domain event: an immutable value with a routing identity and a
/// name/version pair for diagnostics.
pub trait DomainEvent: DynEvent + 'static + Send + Sync {
    fn name(&self) -> &'static str;

    fn version(&self) -> &'static str;
}

/// A failure reported by one handler invocation. It concerns that invocation
/// only: its siblings in the same fan-out run on.
#[derive(Debug, PartialEq, Eq, Clone, Copy)]
pub enum Error {
    Failed,
}

/// A handler of one event type. An instance is built from the shared context
/// for each matched event and consumed by the invocation it starts.
pub trait Handler: Send + Sized {
    type Event: DomainEvent + Sized + Send + 'static + Clone;

    /// The asynchronous operation that one call of `handle` starts.
    type Invocation;

    fn handle(self, event: Self::Event) -> Self::Invocation;
}

/// What an event says of itself: the only schema the bus ever shows.
#[derive(Debug, PartialEq, Eq, Clone, Copy)]
pub struct EventInfo {
    pub identity: EventId,
    pub name: &'static str,
    pub version: &'static str,
}

/// `info` is an answer that `event` may give when asked for its identity,
/// name and version.
pub open spec fn describes<E: DomainEvent>(event: &E, info: EventInfo) -> bool {
    &&& call_ensures(E::identity, (event,), info.identity)
    &&& call_ensures(E::name, (event,), info.name)
    &&& call_ensures(E::version, (event,), info.version)
}

/// Asks an event for its identity, name and version.
pub fn describe<E: DomainEvent>(event: &E) -> (info: EventInfo)
    ensures
        describes(event, info),
{
    EventInfo { identity: event.identity(), name: event.name(), version: event.version() }
}

} // verus!
