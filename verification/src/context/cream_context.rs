use vstd::prelude::*;

use crate::context::{Context, FromContext};
use crate::tasks::Tasks;

verus! {

/// The context every application starts from: it holds the task tracker.
pub struct CreamContext {
    tasks: Tasks,
}

impl CreamContext {
    /// The tracker this context holds.
    pub closed spec fn tracker(&self) -> Tasks {
        self.tasks
    }
}

impl Default for CreamContext {
    /// A context with a tracker of its own, newly made.
    fn default() -> (ctx: Self)
        ensures
            call_ensures(Tasks::new, (), ctx.tracker()),
    {
        CreamContext { tasks: Tasks::new() }
    }
}

impl Clone for CreamContext {
    /// A context whose tracker is a clone of this one's.
    fn clone(&self) -> (copy: Self)
        ensures
            call_ensures(Tasks::clone, (&self.tracker(),), copy.tracker()),
    {
        CreamContext { tasks: self.tasks.clone() }
    }
}

impl Context for CreamContext {

}

/// The tracker a `CreamContext` hands out is a clone of its own: both count
/// the same jobs.
impl FromContext<CreamContext> for Tasks {
    fn from_context(ctx: &CreamContext) -> (tasks: Self)
        ensures
            call_ensures(Tasks::clone, (&ctx.tracker(),), tasks),
    {
        ctx.tasks.clone()
    }
}

} // verus!
