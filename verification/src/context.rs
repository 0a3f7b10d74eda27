use vstd::prelude::*;

mod cream_context;
pub mod events_context;

pub use cream_context::CreamContext;

verus! {

/// A service that can be built from a context of type `C`.
pub trait FromContext<C>: Sized {
    fn from_context(ctx: &C) -> Self;
}

/// A service that is built from a context of type `C` and arguments of its
/// own.
pub trait CreateFromContext<C>: Sized {
    type Args;

    fn create_from_context(ctx: &C, args: Self::Args) -> Self;
}

/// A context that can hand out a service of type `S`.
pub trait ContextProvide<S> {
    fn ctx_provide(&self) -> (service: S);
}

/// Any context provides what can be built from it.
impl<C: Context, S> ContextProvide<S> for C where S: FromContext<C> {
    fn ctx_provide(&self) -> (service: S)
        ensures
            call_ensures(S::from_context, (self,), service),
    {
        S::from_context(self)
    }
}

/// A value that services are built from.
pub trait Context {
    /// Hands out the service `S` that this context provides.
    fn provide<S>(&self) -> (service: S) where Self: ContextProvide<S>
        ensures
            call_ensures(Self::ctx_provide, (self,), service),
    {
        self.ctx_provide()
    }

    /// Builds the service `S` from this context and `args`.
    fn create<S>(&self, args: S::Args) -> (service: S) where
        Self: Sized,
        S: CreateFromContext<Self>,

        ensures
            call_ensures(S::create_from_context, (self, args), service),
    {
        S::create_from_context(self, args)
    }
}

/// Nothing at all can be built from any context.
impl<C> FromContext<C> for () {
    fn from_context(_ctx: &C) {
    }
}

/// A context that holds another context `C` and lends it out.
pub trait ContextExtend<C: Context> {
    fn provide_ctx(&self) -> &C;
}

} // verus!
