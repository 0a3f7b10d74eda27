use vstd::prelude::*;
use vstd::std_specs::cmp::PartialEqSpecImpl;
use vstd::std_specs::convert::FromSpecImpl;

use crate::derive::error::{CompileError, Site};
use crate::derive::tokens::{is_colon, same_stream, streams_equal, Attribute, Meta, Token};

verus! {

/// Why an attribute does not name a context.
#[derive(Debug, PartialEq, Eq, Clone, Copy, Structural)]
pub enum ErrorKind {
    /// The attribute has no argument list in round brackets.
    InvalidMeta,
    /// The argument list is empty.
    NoContextIdent,
    /// The argument list does not start with an identifier.
    InvalidContextIdent,
    /// What follows the identifier is not a colon and bounds.
    InvalidBounds,
}

/// A refused attribute: why, and where the error points.
#[derive(Debug, Clone, Copy)]
pub struct Error {
    pub kind: ErrorKind,
    pub span: Site,
}

impl PartialEq for Error {
    fn eq(&self, other: &Error) -> (equal: bool) {
        self.kind == other.kind
    }
}

impl PartialEqSpecImpl for Error {
    open spec fn obeys_eq_spec() -> bool {
        true
    }

    /// Two errors are equal where they are of one kind, wherever they point.
    open spec fn eq_spec(&self, other: &Error) -> bool {
        self.kind == other.kind
    }
}

/// The message for an attribute refused for `kind`.
pub open spec fn message_of(kind: ErrorKind) -> &'static str {
    match kind {
        ErrorKind::InvalidMeta => "expected #[from_context]",
        ErrorKind::NoContextIdent => "expected context identifier",
        ErrorKind::InvalidContextIdent => "invalid context identifier",
        ErrorKind::InvalidBounds => "invalid context bounds",
    }
}

/// What the compiler is told of a refused attribute: the message of the
/// error's kind, where the error points.
pub open spec fn refusal_of(err: Error) -> CompileError {
    CompileError { message: message_of(err.kind), site: err.span }
}

impl From<Error> for CompileError {
    fn from(err: Error) -> (error: CompileError) {
        match err.kind {
            ErrorKind::InvalidMeta => CompileError {
                message: "expected #[from_context]",
                site: err.span,
            },
            ErrorKind::NoContextIdent => CompileError {
                message: "expected context identifier",
                site: err.span,
            },
            ErrorKind::InvalidContextIdent => CompileError {
                message: "invalid context identifier",
                site: err.span,
            },
            ErrorKind::InvalidBounds => CompileError {
                message: "invalid context bounds",
                site: err.span,
            },
        }
    }
}

impl FromSpecImpl<Error> for CompileError {
    open spec fn obeys_from_spec() -> bool {
        true
    }

    open spec fn from_spec(err: Error) -> CompileError {
        refusal_of(err)
    }
}

/// The context that an implementation is written for: one named type, or
/// every type that meets some bounds.
#[derive(Debug, Clone)]
pub enum ImplBound {
    Static(String),
    Generic { ident: String, bounds: Vec<Token> },
}

/// Two contexts are the same where they are of one form, name the same
/// identifier and, if generic, have bounds that read the same.
pub open spec fn same_bound(a: ImplBound, b: ImplBound) -> bool {
    match (a, b) {
        (ImplBound::Static(a), ImplBound::Static(b)) => a@ == b@,
        (
            ImplBound::Generic { ident: a, bounds: a_bounds },
            ImplBound::Generic { ident: b, bounds: b_bounds },
        ) => a@ == b@ && same_stream(a_bounds@, b_bounds@),
        _ => false,
    }
}

impl PartialEq for ImplBound {
    fn eq(&self, other: &ImplBound) -> (equal: bool) {
        match (self, other) {
            (ImplBound::Static(a), ImplBound::Static(b)) => *a == *b,
            (
                ImplBound::Generic { ident: a, bounds: a_bounds },
                ImplBound::Generic { ident: b, bounds: b_bounds },
            ) => *a == *b && streams_equal(a_bounds, b_bounds),
            _ => false,
        }
    }
}

impl PartialEqSpecImpl for ImplBound {
    open spec fn obeys_eq_spec() -> bool {
        true
    }

    open spec fn eq_spec(&self, other: &ImplBound) -> bool {
        same_bound(*self, *other)
    }
}

/// `parsed` is what the attribute's argument list reads as.
///
/// The list must start with an identifier. Alone, it names one context type.
/// Followed by a colon and at least one more token, it names a type
/// parameter, and the tokens behind the colon are its bounds. Anything else
/// is refused, and the error points at the attribute, but for a colon with
/// nothing behind it, where it points at the missing bounds.
pub open spec fn parses_to(attr: Attribute, parsed: Result<ImplBound, Error>) -> bool {
    match attr.meta {
        Meta::List(tokens) => {
            let tokens = tokens@;
            if tokens.len() == 0 {
                parsed == Err::<ImplBound, Error>(
                    Error { kind: ErrorKind::NoContextIdent, span: Site::Attribute },
                )
            } else if !(tokens[0] is Ident) {
                parsed == Err::<ImplBound, Error>(
                    Error { kind: ErrorKind::InvalidContextIdent, span: Site::Attribute },
                )
            } else if tokens.len() == 1 {
                tokens[0] matches Token::Ident(ident) && parsed == Ok::<ImplBound, Error>(
                    ImplBound::Static(ident),
                )
            } else if !is_colon(tokens[1]) {
                parsed == Err::<ImplBound, Error>(
                    Error { kind: ErrorKind::InvalidBounds, span: Site::Attribute },
                )
            } else if tokens.len() == 2 {
                parsed == Err::<ImplBound, Error>(
                    Error { kind: ErrorKind::InvalidBounds, span: Site::Bounds },
                )
            } else {
                &&& parsed matches Ok(ImplBound::Generic { ident, bounds })
                &&& tokens[0] == Token::Ident(ident)
                &&& bounds@ == tokens.subrange(2, tokens.len() as int)
            }
        },
        _ => parsed == Err::<ImplBound, Error>(
            Error { kind: ErrorKind::InvalidMeta, span: Site::Attribute },
        ),
    }
}

impl ImplBound {
    /// Reads the context out of the attribute that names it.
    pub fn parse(attr: Attribute) -> (parsed: Result<ImplBound, Error>)
        ensures
            parses_to(attr, parsed),
    {
        let mut tokens = match attr.meta {
            Meta::List(tokens) => tokens,
            _ => {
                return Err(Error { kind: ErrorKind::InvalidMeta, span: Site::Attribute });
            },
        };
        let ghost all = tokens@;
        if tokens.len() == 0 {
            return Err(Error { kind: ErrorKind::NoContextIdent, span: Site::Attribute });
        }
        let mut rest = tokens.split_off(1);
        let context_ident = match tokens.pop() {
            Some(Token::Ident(context)) => context,
            _ => {
                return Err(Error { kind: ErrorKind::InvalidContextIdent, span: Site::Attribute });
            },
        };
        if rest.len() == 0 {
            return Ok(ImplBound::Static(context_ident));
        }
        let bounds = rest.split_off(1);
        let has_colon = match rest.pop() {
            Some(Token::Punct(colon)) => colon == ':',
            _ => false,
        };
        if !has_colon {
            return Err(Error { kind: ErrorKind::InvalidBounds, span: Site::Attribute });
        }
        if bounds.len() == 0 {
            return Err(Error { kind: ErrorKind::InvalidBounds, span: Site::Bounds });
        }
        assert(bounds@ =~= all.subrange(2, all.len() as int));
        Ok(ImplBound::Generic { ident: context_ident, bounds })
    }
}

} // verus!
