use vstd::prelude::*;
use vstd::std_specs::cmp::PartialEqSpecImpl;

use crate::derive::error::{CompileError, Site};
use crate::derive::impl_bound::{parses_to, Error, ErrorKind, ImplBound};
use crate::derive::tokens::{same_stream, streams_equal, Attribute, Data, DeriveInput, Token};

verus! {

/// The context that `FromContext` is implemented for: one named type, or
/// every type that meets some bounds.
#[derive(Debug, Clone)]
pub enum ContextImpl {
    Static(String),
    Generic { ident: String, bounds: Vec<Token> },
}

impl ContextImpl {
    /// The same context, as the attribute's reading.
    pub open spec fn bound(self) -> ImplBound {
        match self {
            ContextImpl::Static(ident) => ImplBound::Static(ident),
            ContextImpl::Generic { ident, bounds } => ImplBound::Generic { ident, bounds },
        }
    }
}

/// Two contexts are the same where they are of one form, name the same
/// identifier and, if generic, have bounds that read the same.
pub open spec fn same_context(a: ContextImpl, b: ContextImpl) -> bool {
    match (a, b) {
        (ContextImpl::Static(a), ContextImpl::Static(b)) => a@ == b@,
        (
            ContextImpl::Generic { ident: a, bounds: a_bounds },
            ContextImpl::Generic { ident: b, bounds: b_bounds },
        ) => a@ == b@ && same_stream(a_bounds@, b_bounds@),
        _ => false,
    }
}

impl PartialEq for ContextImpl {
    fn eq(&self, other: &ContextImpl) -> (equal: bool) {
        match (self, other) {
            (ContextImpl::Static(a), ContextImpl::Static(b)) => *a == *b,
            (
                ContextImpl::Generic { ident: a, bounds: a_bounds },
                ContextImpl::Generic { ident: b, bounds: b_bounds },
            ) => *a == *b && streams_equal(a_bounds, b_bounds),
            _ => false,
        }
    }
}

impl PartialEqSpecImpl for ContextImpl {
    open spec fn obeys_eq_spec() -> bool {
        true
    }

    open spec fn eq_spec(&self, other: &ContextImpl) -> bool {
        same_context(*self, *other)
    }
}

/// What the `context` attribute of a `FromContext` derive says.
#[derive(Debug, Clone)]
pub struct FromContextAttr {
    pub context: ContextImpl,
}

/// The attribute's reading behind `parsed`.
pub open spec fn reading_of(parsed: Result<FromContextAttr, Error>) -> Result<ImplBound, Error> {
    match parsed {
        Ok(attr) => Ok(attr.context.bound()),
        Err(error) => Err(error),
    }
}

/// The message for a `context` attribute refused for `kind`.
pub open spec fn message_of(kind: ErrorKind) -> &'static str {
    match kind {
        ErrorKind::InvalidMeta => "expected #[context(<ident|trait>)]",
        ErrorKind::NoContextIdent => "expected #[context(<ident|trait>)]",
        ErrorKind::InvalidContextIdent => "invalid context identifier",
        ErrorKind::InvalidBounds => "expected bounds like #[context(C: MyTrait + Foo + ...)]",
    }
}

/// What the compiler is told of a refused `context` attribute.
pub open spec fn refusal_of(err: Error) -> CompileError {
    CompileError { message: message_of(err.kind), site: err.span }
}

/// Turns a refused `context` attribute into what the compiler is told.
pub fn refusal(err: Error) -> (error: CompileError)
    ensures
        error == refusal_of(err),
{
    match err.kind {
        ErrorKind::InvalidMeta => CompileError {
            message: "expected #[context(<ident|trait>)]",
            site: err.span,
        },
        ErrorKind::NoContextIdent => CompileError {
            message: "expected #[context(<ident|trait>)]",
            site: err.span,
        },
        ErrorKind::InvalidContextIdent => CompileError {
            message: "invalid context identifier",
            site: err.span,
        },
        ErrorKind::InvalidBounds => CompileError {
            message: "expected bounds like #[context(C: MyTrait + Foo + ...)]",
            site: err.span,
        },
    }
}

/// `decided` is what a `FromContext` derive decides on `input`: only structs
/// are taken, the first attribute must be there, and it must name a context.
pub open spec fn decides(input: DeriveInput, decided: Result<FromContextAttr, CompileError>) -> bool {
    if !(input.data is Struct) {
        decided == Err::<FromContextAttr, CompileError>(
            CompileError { message: "only structs are supported", site: Site::Input },
        )
    } else if input.attrs@.len() == 0 {
        decided == Err::<FromContextAttr, CompileError>(
            CompileError { message: "Missing #[context] attribute", site: Site::Input },
        )
    } else {
        match decided {
            Ok(attr) => parses_to(input.attrs@[0], Ok(attr.context.bound())),
            Err(error) => exists|err: Error|
                parses_to(input.attrs@[0], Err(err)) && error == refusal_of(err),
        }
    }
}

impl FromContextAttr {
    /// Reads the context out of the attribute that names it.
    pub fn parse(attr: Attribute) -> (parsed: Result<FromContextAttr, Error>)
        ensures
            parses_to(attr, reading_of(parsed)),
    {
        match ImplBound::parse(attr) {
            Ok(ImplBound::Static(ident)) => Ok(
                FromContextAttr { context: ContextImpl::Static(ident) },
            ),
            Ok(ImplBound::Generic { ident, bounds }) => Ok(
                FromContextAttr { context: ContextImpl::Generic { ident, bounds } },
            ),
            Err(error) => Err(error),
        }
    }

    /// Decides on the input of a `FromContext` derive: which context the
    /// implementation is for, or what the compiler is to report.
    pub fn for_input(input: DeriveInput) -> (decided: Result<FromContextAttr, CompileError>)
        ensures
            decides(input, decided),
    {
        match input.data {
            Data::Struct => {},
            _ => {
                return Err(
                    CompileError { message: "only structs are supported", site: Site::Input },
                );
            },
        }
        let mut attrs = input.attrs;
        if attrs.len() == 0 {
            return Err(
                CompileError { message: "Missing #[context] attribute", site: Site::Input },
            );
        }
        let _later = attrs.split_off(1);
        let first = attrs.pop().unwrap();
        match FromContextAttr::parse(first) {
            Ok(attr) => Ok(attr),
            Err(err) => {
                let error = refusal(err);
                Err(error)
            },
        }
    }
}

} // verus!
