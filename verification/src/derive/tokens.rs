use vstd::prelude::*;
use vstd::std_specs::cmp::PartialEqSpecImpl;

verus! {

/// One token of an attribute's argument list, as far as the derives read it.
/// A bracketed group counts as one token and is kept as its text.
#[derive(Debug, Clone)]
pub enum Token {
    Ident(String),
    Punct(char),
    Literal(String),
    Group(String),
}

impl PartialEq for Token {
    fn eq(&self, other: &Token) -> (equal: bool) {
        match (self, other) {
            (Token::Ident(a), Token::Ident(b)) => *a == *b,
            (Token::Punct(a), Token::Punct(b)) => *a == *b,
            (Token::Literal(a), Token::Literal(b)) => *a == *b,
            (Token::Group(a), Token::Group(b)) => *a == *b,
            _ => false,
        }
    }
}

impl PartialEqSpecImpl for Token {
    open spec fn obeys_eq_spec() -> bool {
        true
    }

    open spec fn eq_spec(&self, other: &Token) -> bool {
        same_token(*self, *other)
    }
}

/// Two tokens are the same where they are of one kind and read the same.
pub open spec fn same_token(a: Token, b: Token) -> bool {
    match (a, b) {
        (Token::Ident(a), Token::Ident(b)) => a@ == b@,
        (Token::Punct(a), Token::Punct(b)) => a == b,
        (Token::Literal(a), Token::Literal(b)) => a@ == b@,
        (Token::Group(a), Token::Group(b)) => a@ == b@,
        _ => false,
    }
}

impl Eq for Token {

}

/// Two token streams read the same: token for token.
pub open spec fn same_stream(a: Seq<Token>, b: Seq<Token>) -> bool {
    &&& a.len() == b.len()
    &&& forall|i: int| 0 <= i < a.len() ==> same_token(#[trigger] a[i], b[i])
}

/// Whether two token streams read the same.
pub fn streams_equal(a: &Vec<Token>, b: &Vec<Token>) -> (equal: bool)
    ensures
        equal == same_stream(a@, b@),
{
    if a.len() != b.len() {
        return false;
    }
    let mut i: usize = 0;
    while i < a.len()
        invariant
            a@.len() == b@.len(),
            i <= a@.len(),
            forall|k: int| 0 <= k < i ==> same_token(#[trigger] a@[k], b@[k]),
        decreases a@.len() - i,
    {
        if !(a[i] == b[i]) {
            return false;
        }
        i += 1;
    }
    true
}

/// What stands behind an attribute's name: nothing, a list of tokens in
/// round brackets, or `=` and a value.
#[derive(Debug, Clone)]
pub enum Meta {
    Path,
    List(Vec<Token>),
    NameValue,
}

/// One attribute of the item a derive is applied to.
#[derive(Debug, Clone)]
pub struct Attribute {
    pub meta: Meta,
}

/// The kind of item a derive is applied to.
#[derive(Debug, Clone, Copy)]
pub enum Data {
    Struct,
    Enum,
    Union,
}

/// The item a derive is applied to, as far as the derives decide on it: its
/// kind and its attributes, in source order.
#[derive(Debug, Clone)]
pub struct DeriveInput {
    pub data: Data,
    pub attrs: Vec<Attribute>,
}

/// The colon that parts a context identifier from its bounds.
pub open spec fn is_colon(token: Token) -> bool {
    token matches Token::Punct(c) && c == ':'
}

} // verus!
