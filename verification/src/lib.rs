//! An in-process, typed publish/dispatch bus.
//!
//! Producers publish events into a bounded mailbox; a dispatch loop matches
//! each event to the handlers registered for its identity and hands one
//! invocation per handler to a task tracker, which offers a close-then-wait
//! barrier for orderly shutdown.

/// define events, handlers & config the router
pub mod events;

/// ports & sockets for emitting & receiving events
pub mod event_bus;
/// the task tracker and its close-then-wait barrier
pub mod tasks;
/// config for providing repositories, EventBusPort, etc.
pub mod context;
/// listen for events and dispatch to handlers
pub mod router_bus;
/// the router as `EventRouter`, with `register` and `handle`
pub mod event_router;
/// what the derives decide on their input
pub mod derive;
