//! What the derives for context-built services decide before any code is
//! written out: the shape of the attribute that names the context, and the
//! message for each input that is refused.

pub mod error;
pub mod gen_context_provide;
pub mod gen_from_context;
pub mod impl_bound;
pub mod tokens;
