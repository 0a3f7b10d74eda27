use vstd::prelude::*;
use vstd::std_specs::cmp::PartialEqSpecImpl;
use vstd::std_specs::convert::FromSpecImpl;

use crate::derive::error::{CompileError, Site};
use crate::derive::tokens::{Attribute, Data, DeriveInput, Meta, Token};

verus! {

/// Why an attribute does not name a providing context.
#[derive(Debug, PartialEq, Eq, Clone, Copy, Structural)]
pub enum ErrorKind {
    /// The attribute has no argument list, or the list does not start with
    /// an identifier.
    InvalidArg,
    /// Something follows the identifier.
    TooManyArgs,
}

/// A refused attribute: why, and where the error points.
#[derive(Debug, Clone, Copy)]
pub struct Error {
    pub span: Site,
    pub kind: ErrorKind,
}

impl PartialEq for Error {
    fn eq(&self, other: &Error) -> (equal: bool) {
        self.kind == other.kind
    }
}

impl PartialEqSpecImpl for Error {
    open spec fn obeys_eq_spec() -> bool {
        true
    }

    /// Two errors are equal where they are of one kind, wherever they point.
    open spec fn eq_spec(&self, other: &Error) -> bool {
        self.kind == other.kind
    }
}

/// The message for an attribute refused for `kind`.
pub open spec fn message_of(kind: ErrorKind) -> &'static str {
    match kind {
        ErrorKind::InvalidArg => "expected #[provider_context(ident)]",
        ErrorKind::TooManyArgs => "expected one single argument",
    }
}

/// What the compiler is told of a refused attribute: the message of the
/// error's kind, where the error points.
pub open spec fn refusal_of(err: Error) -> CompileError {
    CompileError { message: message_of(err.kind), site: err.span }
}

impl From<Error> for CompileError {
    fn from(value: Error) -> (error: CompileError) {
        match value.kind {
            ErrorKind::InvalidArg => CompileError {
                message: "expected #[provider_context(ident)]",
                site: value.span,
            },
            ErrorKind::TooManyArgs => CompileError {
                message: "expected one single argument",
                site: value.span,
            },
        }
    }
}

impl FromSpecImpl<Error> for CompileError {
    open spec fn obeys_from_spec() -> bool {
        true
    }

    open spec fn from_spec(value: Error) -> CompileError {
        refusal_of(value)
    }
}

/// What the `provider_context` attribute of a `ContextProvide` derive says:
/// the context that provides the service.
#[derive(Debug, Clone)]
pub struct ContextProvideAttr {
    pub ident: String,
}

impl PartialEq for ContextProvideAttr {
    fn eq(&self, other: &ContextProvideAttr) -> (equal: bool) {
        self.ident == other.ident
    }
}

impl PartialEqSpecImpl for ContextProvideAttr {
    open spec fn obeys_eq_spec() -> bool {
        true
    }

    open spec fn eq_spec(&self, other: &ContextProvideAttr) -> bool {
        self.ident@ == other.ident@
    }
}

/// `parsed` is what the attribute's argument list reads as: it must hold one
/// identifier and nothing else.
pub open spec fn parses_to(attr: Attribute, parsed: Result<ContextProvideAttr, Error>) -> bool {
    match attr.meta {
        Meta::List(tokens) => {
            let tokens = tokens@;
            if tokens.len() == 0 || !(tokens[0] is Ident) {
                parsed == Err::<ContextProvideAttr, Error>(
                    Error { span: Site::Attribute, kind: ErrorKind::InvalidArg },
                )
            } else if tokens.len() > 1 {
                parsed == Err::<ContextProvideAttr, Error>(
                    Error { span: Site::Attribute, kind: ErrorKind::TooManyArgs },
                )
            } else {
                parsed matches Ok(found) && tokens[0] == Token::Ident(found.ident)
            }
        },
        _ => parsed == Err::<ContextProvideAttr, Error>(
            Error { span: Site::Attribute, kind: ErrorKind::InvalidArg },
        ),
    }
}

/// `decided` is what a `ContextProvide` derive decides on `input`: only
/// structs are taken, the first attribute must be there, and it must name the
/// providing context.
pub open spec fn decides(input: DeriveInput, decided: Result<ContextProvideAttr, CompileError>) -> bool {
    if !(input.data is Struct) {
        decided == Err::<ContextProvideAttr, CompileError>(
            CompileError { message: "expected struct", site: Site::Input },
        )
    } else if input.attrs@.len() == 0 {
        decided == Err::<ContextProvideAttr, CompileError>(
            CompileError { message: "Missing #[provider_context] attribute", site: Site::Input },
        )
    } else {
        match decided {
            Ok(attr) => parses_to(input.attrs@[0], Ok(attr)),
            Err(error) => exists|err: Error|
                parses_to(input.attrs@[0], Err(err)) && error == refusal_of(err),
        }
    }
}

impl ContextProvideAttr {
    /// Reads the providing context out of the attribute that names it.
    pub fn parse(attr: Attribute) -> (parsed: Result<ContextProvideAttr, Error>)
        ensures
            parses_to(attr, parsed),
    {
        let mut tokens = match attr.meta {
            Meta::List(tokens) => tokens,
            _ => {
                return Err(Error { span: Site::Attribute, kind: ErrorKind::InvalidArg });
            },
        };
        if tokens.len() == 0 {
            return Err(Error { span: Site::Attribute, kind: ErrorKind::InvalidArg });
        }
        let rest = tokens.split_off(1);
        let ident = match tokens.pop() {
            Some(Token::Ident(ident)) => ident,
            _ => {
                return Err(Error { span: Site::Attribute, kind: ErrorKind::InvalidArg });
            },
        };
        if rest.len() > 0 {
            return Err(Error { span: Site::Attribute, kind: ErrorKind::TooManyArgs });
        }
        Ok(ContextProvideAttr { ident })
    }

    /// Decides on the input of a `ContextProvide` derive: which context
    /// provides the service, or what the compiler is to report.
    pub fn for_input(input: DeriveInput) -> (decided: Result<ContextProvideAttr, CompileError>)
        ensures
            decides(input, decided),
    {
        match input.data {
            Data::Struct => {},
            _ => {
                return Err(CompileError { message: "expected struct", site: Site::Input });
            },
        }
        let mut attrs = input.attrs;
        if attrs.len() == 0 {
            return Err(
                CompileError {
                    message: "Missing #[provider_context] attribute",
                    site: Site::Input,
                },
            );
        }
        let _later = attrs.split_off(1);
        let first = attrs.pop().unwrap();
        match ContextProvideAttr::parse(first) {
            Ok(attr) => Ok(attr),
            Err(err) => {
                let error = CompileError::from(err);
                Err(error)
            },
        }
    }
}

} // verus!
