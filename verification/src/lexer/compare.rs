//! Equality and copies of tokens: two tokens are equal when they are of the same kind, with
//! the same span and the same contents.

use vstd::prelude::*;

use vstd::std_specs::cmp::PartialEqSpecImpl;

use crate::error::Error;
use crate::lexer::tokens::{StringFragment, Token};

verus! {

/// Two tokens are equal: the same kind, span and contents.
pub open spec fn same_token(a: Token, b: Token) -> bool
    decreases a,
{
    match (a, b) {
        (Token::Unknown(t, s, e), Token::Unknown(u, r, f)) => t@ == u@ && s == r && e@ == f@,
        (Token::Comment(t, k, s), Token::Comment(u, l, r)) => t@ == u@ && k == l && s == r,
        (Token::Identifier(t, s), Token::Identifier(u, r)) => t@ == u@ && s == r,
        (Token::Boolean(x, s), Token::Boolean(y, r)) => x == y && s == r,
        (Token::Float(t, s), Token::Float(u, r)) => t@ == u@ && s == r,
        (Token::Integer(t, s), Token::Integer(u, r)) => t@ == u@ && s == r,
        (Token::Interpolation(v, s), Token::Interpolation(w, r)) => same_tokens(v@, w@) && s == r,
        (Token::Path(t, s), Token::Path(u, r)) => t@ == u@ && s == r,
        (Token::PathTemplate(t, s), Token::PathTemplate(u, r)) => t@ == u@ && s == r,
        (Token::String(v, s), Token::String(w, r)) => same_fragments(v@, w@) && s == r,
        (Token::Uri(t, s), Token::Uri(u, r)) => t@ == u@ && s == r,
        _ => a.spec_kind() == b.spec_kind() && a.spec_span() == b.spec_span(),
    }
}

/// Two sequences of tokens are equal one by one.
pub open spec fn same_tokens(a: Seq<Token>, b: Seq<Token>) -> bool
    decreases a,
{
    if a.len() != b.len() {
        false
    } else if a.len() == 0 {
        true
    } else {
        proof {
            assert(decreases_to!(a => a.drop_last()));
        }
        same_tokens(a.drop_last(), b.drop_last()) && same_token(a.last(), b.last())
    }
}

/// Two string fragments are equal: the same text, or the same tokens, and the same span.
pub open spec fn same_fragment(a: StringFragment, b: StringFragment) -> bool
    decreases a,
{
    match (a, b) {
        (StringFragment::Literal(t, s), StringFragment::Literal(u, r)) => t@ == u@ && s == r,
        (StringFragment::Interpolation(v, s), StringFragment::Interpolation(w, r)) => same_tokens(
            v@,
            w@,
        ) && s == r,
        _ => false,
    }
}

/// Two sequences of string fragments are equal one by one.
pub open spec fn same_fragments(a: Seq<StringFragment>, b: Seq<StringFragment>) -> bool
    decreases a,
{
    if a.len() != b.len() {
        false
    } else if a.len() == 0 {
        true
    } else {
        proof {
            assert(decreases_to!(a => a.drop_last()));
        }
        same_fragments(a.drop_last(), b.drop_last()) && same_fragment(a.last(), b.last())
    }
}

impl Error {
    /// Whether the two errors are the same: the same kind, texts and span.
    pub fn same(&self, other: &Error) -> (r: bool)
        ensures
            r == (self@ == other@),
    {
        match (self, other) {
            (Error::Unexpected(a), Error::Unexpected(b)) => *a.found_text() == *b.found_text()
                && a.get_span() == b.get_span(),
            (Error::ExpectedFound(a), Error::ExpectedFound(b)) => *a.expected_text()
                == *b.expected_text() && *a.found_text() == *b.found_text() && a.get_span()
                == b.get_span(),
            _ => false,
        }
    }
}

/// Compares two vectors of tokens one by one.
fn same_token_vecs(a: &Vec<Token>, b: &Vec<Token>) -> (r: bool)
    ensures
        r == same_tokens(a@, b@),
    decreases a,
{
    if a.len() != b.len() {
        return false;
    }
    let mut r = true;
    let mut i: usize = 0;
    while i < a.len()
        invariant
            a@.len() == b@.len(),
            i <= a@.len(),
            r == same_tokens(a@.take(i as int), b@.take(i as int)),
        decreases a.len() - i,
    {
        proof {
            assert(a@.take(i + 1).drop_last() =~= a@.take(i as int));
            assert(b@.take(i + 1).drop_last() =~= b@.take(i as int));
        }
        r = r && a[i].same(&b[i]);
        i = i + 1;
    }
    proof {
        assert(a@.take(a@.len() as int) =~= a@);
        assert(b@.take(a@.len() as int) =~= b@);
    }
    r
}

/// Compares two vectors of fragments one by one.
fn same_fragment_vecs(a: &Vec<StringFragment>, b: &Vec<StringFragment>) -> (r: bool)
    ensures
        r == same_fragments(a@, b@),
    decreases a,
{
    if a.len() != b.len() {
        return false;
    }
    let mut r = true;
    let mut i: usize = 0;
    while i < a.len()
        invariant
            a@.len() == b@.len(),
            i <= a@.len(),
            r == same_fragments(a@.take(i as int), b@.take(i as int)),
        decreases a.len() - i,
    {
        proof {
            assert(a@.take(i + 1).drop_last() =~= a@.take(i as int));
            assert(b@.take(i + 1).drop_last() =~= b@.take(i as int));
        }
        r = r && a[i].same(&b[i]);
        i = i + 1;
    }
    proof {
        assert(a@.take(a@.len() as int) =~= a@);
        assert(b@.take(a@.len() as int) =~= b@);
    }
    r
}

impl Token {
    /// Whether the two tokens are equal: the same kind, span and contents.
    pub fn same(&self, other: &Token) -> (r: bool)
        ensures
            r == same_token(*self, *other),
        decreases self,
    {
        match (self, other) {
            (Token::Unknown(t, s, e), Token::Unknown(u, r, f)) => *t == *u && *s == *r && e.same(
                f,
            ),
            (Token::Comment(t, k, s), Token::Comment(u, l, r)) => *t == *u && *k == *l && *s
                == *r,
            (Token::Identifier(t, s), Token::Identifier(u, r)) => *t == *u && *s == *r,
            (Token::Boolean(x, s), Token::Boolean(y, r)) => *x == *y && *s == *r,
            (Token::Float(t, s), Token::Float(u, r)) => *t == *u && *s == *r,
            (Token::Integer(t, s), Token::Integer(u, r)) => *t == *u && *s == *r,
            (Token::Interpolation(v, s), Token::Interpolation(w, r)) => same_token_vecs(v, w)
                && *s == *r,
            (Token::Path(t, s), Token::Path(u, r)) => *t == *u && *s == *r,
            (Token::PathTemplate(t, s), Token::PathTemplate(u, r)) => *t == *u && *s == *r,
            (Token::String(v, s), Token::String(w, r)) => same_fragment_vecs(v, w) && *s == *r,
            (Token::Uri(t, s), Token::Uri(u, r)) => *t == *u && *s == *r,
            _ => self.kind() == other.kind() && self.span() == other.span(),
        }
    }

    /// A copy of the token.
    fn copy_tree(&self) -> (res: Token)
        ensures
            same_token(res, *self),
        decreases self,
    {
        match self {
            Token::Eof(s) => Token::Eof(*s),
            Token::Unknown(t, s, e) => Token::Unknown(t.clone(), *s, e.clone()),
            Token::Comment(t, k, s) => Token::Comment(t.clone(), *k, *s),
            Token::Identifier(t, s) => Token::Identifier(t.clone(), *s),
            Token::Null(s) => Token::Null(*s),
            Token::Boolean(b, s) => Token::Boolean(*b, *s),
            Token::Float(t, s) => Token::Float(t.clone(), *s),
            Token::Integer(t, s) => Token::Integer(t.clone(), *s),
            Token::Interpolation(v, s) => Token::Interpolation(copy_tokens(v), *s),
            Token::Path(t, s) => Token::Path(t.clone(), *s),
            Token::PathTemplate(t, s) => Token::PathTemplate(t.clone(), *s),
            Token::String(v, s) => Token::String(copy_fragments(v), *s),
            Token::Uri(t, s) => Token::Uri(t.clone(), *s),
            Token::Add(s) => Token::Add(*s),
            Token::Sub(s) => Token::Sub(*s),
            Token::Mul(s) => Token::Mul(*s),
            Token::Div(s) => Token::Div(*s),
            Token::IsEq(s) => Token::IsEq(*s),
            Token::NotEq(s) => Token::NotEq(*s),
            Token::LessThan(s) => Token::LessThan(*s),
            Token::LessThanEq(s) => Token::LessThanEq(*s),
            Token::GreaterThan(s) => Token::GreaterThan(*s),
            Token::GreaterThanEq(s) => Token::GreaterThanEq(*s),
            Token::LogicalAnd(s) => Token::LogicalAnd(*s),
            Token::LogicalOr(s) => Token::LogicalOr(*s),
            Token::Concat(s) => Token::Concat(*s),
            Token::Update(s) => Token::Update(*s),
            Token::Question(s) => Token::Question(*s),
            Token::Imply(s) => Token::Imply(*s),
            Token::Not(s) => Token::Not(*s),
            Token::Assert(s) => Token::Assert(*s),
            Token::Else(s) => Token::Else(*s),
            Token::If(s) => Token::If(*s),
            Token::In(s) => Token::In(*s),
            Token::Inherit(s) => Token::Inherit(*s),
            Token::Let(s) => Token::Let(*s),
            Token::Or(s) => Token::Or(*s),
            Token::Rec(s) => Token::Rec(*s),
            Token::Then(s) => Token::Then(*s),
            Token::With(s) => Token::With(*s),
            Token::At(s) => Token::At(*s),
            Token::Colon(s) => Token::Colon(*s),
            Token::Comma(s) => Token::Comma(*s),
            Token::Dot(s) => Token::Dot(*s),
            Token::Ellipsis(s) => Token::Ellipsis(*s),
            Token::Eq(s) => Token::Eq(*s),
            Token::Interpolate(s) => Token::Interpolate(*s),
            Token::LBrace(s) => Token::LBrace(*s),
            Token::RBrace(s) => Token::RBrace(*s),
            Token::LBracket(s) => Token::LBracket(*s),
            Token::RBracket(s) => Token::RBracket(*s),
            Token::LParen(s) => Token::LParen(*s),
            Token::RParen(s) => Token::RParen(*s),
            Token::QuoteDouble(s) => Token::QuoteDouble(*s),
            Token::QuoteSingle(s) => Token::QuoteSingle(*s),
            Token::Semi(s) => Token::Semi(*s),
        }
    }
}

impl StringFragment {
    /// Whether the two fragments are equal: the same text, or the same tokens, and the same
    /// span.
    pub fn same(&self, other: &StringFragment) -> (r: bool)
        ensures
            r == same_fragment(*self, *other),
        decreases self,
    {
        match (self, other) {
            (StringFragment::Literal(t, s), StringFragment::Literal(u, r)) => *t == *u && *s == *r,
            (StringFragment::Interpolation(v, s), StringFragment::Interpolation(w, r)) => {
                same_token_vecs(v, w) && *s == *r
            },
            _ => false,
        }
    }

    /// A copy of the fragment.
    fn copy_tree(&self) -> (res: StringFragment)
        ensures
            same_fragment(res, *self),
        decreases self,
    {
        match self {
            StringFragment::Literal(t, s) => StringFragment::Literal(t.clone(), *s),
            StringFragment::Interpolation(v, s) => StringFragment::Interpolation(copy_tokens(v), *s),
        }
    }
}

/// A copy of every token of `v`, in order.
fn copy_tokens(v: &Vec<Token>) -> (res: Vec<Token>)
    ensures
        same_tokens(res@, v@),
    decreases v,
{
    let mut res: Vec<Token> = Vec::new();
    let mut i: usize = 0;
    while i < v.len()
        invariant
            i <= v@.len(),
            same_tokens(res@, v@.take(i as int)),
        decreases v.len() - i,
    {
        let x = v[i].copy_tree();
        let ghost r0 = res@;
        res.push(x);
        proof {
            assert(res@.drop_last() =~= r0);
            assert(v@.take(i + 1).drop_last() =~= v@.take(i as int));
        }
        i = i + 1;
    }
    assert(v@.take(v@.len() as int) =~= v@);
    res
}

/// A copy of every fragment of `v`, in order.
fn copy_fragments(v: &Vec<StringFragment>) -> (res: Vec<StringFragment>)
    ensures
        same_fragments(res@, v@),
    decreases v,
{
    let mut res: Vec<StringFragment> = Vec::new();
    let mut i: usize = 0;
    while i < v.len()
        invariant
            i <= v@.len(),
            same_fragments(res@, v@.take(i as int)),
        decreases v.len() - i,
    {
        let x = v[i].copy_tree();
        let ghost r0 = res@;
        res.push(x);
        proof {
            assert(res@.drop_last() =~= r0);
            assert(v@.take(i + 1).drop_last() =~= v@.take(i as int));
        }
        i = i + 1;
    }
    assert(v@.take(v@.len() as int) =~= v@);
    res
}

impl PartialEq for Token {
    fn eq(&self, other: &Self) -> (r: bool) {
        self.same(other)
    }
}

impl PartialEqSpecImpl for Token {
    open spec fn obeys_eq_spec() -> bool {
        true
    }

    open spec fn eq_spec(&self, other: &Token) -> bool {
        same_token(*self, *other)
    }
}

impl Clone for Token {
    fn clone(&self) -> (res: Token)
        ensures
            same_token(res, *self),
    {
        self.copy_tree()
    }
}

impl PartialEq for StringFragment {
    fn eq(&self, other: &Self) -> (r: bool) {
        self.same(other)
    }
}

impl PartialEqSpecImpl for StringFragment {
    open spec fn obeys_eq_spec() -> bool {
        true
    }

    open spec fn eq_spec(&self, other: &StringFragment) -> bool {
        same_fragment(*self, *other)
    }
}

impl Clone for StringFragment {
    fn clone(&self) -> (res: StringFragment)
        ensures
            same_fragment(res, *self),
    {
        self.copy_tree()
    }
}

} // verus!
