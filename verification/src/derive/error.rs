use vstd::prelude::*;

verus! {

/// The place in the input that an error points at.
#[derive(Debug, PartialEq, Eq, Clone, Copy)]
pub enum Site {
    /// The whole item the derive is applied to.
    Input,
    /// The attribute that names the context.
    Attribute,
    /// The tokens behind the colon in that attribute.
    Bounds,
}

/// A refusal of the derive's input: the compiler is to report `message` at
/// `site`.
#[derive(Debug, PartialEq, Eq, Clone, Copy)]
pub struct CompileError {
    pub message: &'static str,
    pub site: Site,
}

} // verus!
