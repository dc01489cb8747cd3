//! The leaves of the syntax tree: identifiers, literals and comments.

use vstd::prelude::*;

use crate::span::Span;

verus! {

/// A comment that documents the item that follows it.
#[derive(Debug)]
pub struct Comment {
    pub text: String,
    pub span: Span,
}

/// The view of a comment.
pub struct CommentV {
    pub text: Seq<char>,
    pub span: Span,
}

impl View for Comment {
    type V = CommentV;

    open spec fn view(&self) -> CommentV {
        CommentV { text: self.text@, span: self.span }
    }
}

impl Comment {
    /// A comment with the given text and span.
    pub fn new(text: String, span: Span) -> (res: Comment)
        ensures
            res.text == text,
            res.span == span,
    {
        Comment { text, span }
    }

    /// The text of the comment.
    pub fn text(&self) -> (res: &String)
        ensures
            *res == self.text,
    {
        &self.text
    }

    /// The span of the comment.
    pub fn span(&self) -> (res: Span)
        ensures
            res == self.span,
    {
        self.span
    }
}

impl Clone for Comment {
    fn clone(&self) -> (res: Comment)
        ensures
            res == *self,
    {
        Comment { text: self.text.clone(), span: self.span }
    }
}

/// An identifier.
#[derive(Debug)]
pub struct Ident {
    pub name: String,
    pub span: Span,
}

/// The view of an identifier.
pub struct IdentV {
    pub name: Seq<char>,
    pub span: Span,
}

impl View for Ident {
    type V = IdentV;

    open spec fn view(&self) -> IdentV {
        IdentV { name: self.name@, span: self.span }
    }
}

impl Ident {
    /// An identifier with the given name and span.
    pub fn new(name: String, span: Span) -> (res: Ident)
        ensures
            res.name == name,
            res.span == span,
    {
        Ident { name, span }
    }

    /// The name.
    pub fn name(&self) -> (res: &String)
        ensures
            *res == self.name,
    {
        &self.name
    }

    /// The span of the identifier.
    pub fn span(&self) -> (res: Span)
        ensures
            res == self.span,
    {
        self.span
    }
}

impl Clone for Ident {
    fn clone(&self) -> (res: Ident)
        ensures
            res == *self,
    {
        Ident { name: self.name.clone(), span: self.span }
    }
}

impl Clone for Literal {
    fn clone(&self) -> (res: Literal)
        ensures
            res == *self,
    {
        match self {
            Literal::Null(s) => Literal::Null(*s),
            Literal::Boolean(b, s) => Literal::Boolean(*b, *s),
            Literal::Float(t, s) => Literal::Float(t.clone(), *s),
            Literal::Integer(t, s) => Literal::Integer(t.clone(), *s),
            Literal::Path(t, s) => Literal::Path(t.clone(), *s),
            Literal::PathTemplate(t, s) => Literal::PathTemplate(t.clone(), *s),
            Literal::Uri(t, s) => Literal::Uri(t.clone(), *s),
        }
    }
}

/// A literal value, kept as the text that the source wrote.
#[derive(Debug)]
pub enum Literal {
    Null(Span),
    Boolean(bool, Span),
    Float(String, Span),
    Integer(String, Span),
    Path(String, Span),
    PathTemplate(String, Span),
    Uri(String, Span),
}

/// The view of a literal.
pub enum LiteralV {
    Null(Span),
    Boolean(bool, Span),
    Float(Seq<char>, Span),
    Integer(Seq<char>, Span),
    Path(Seq<char>, Span),
    PathTemplate(Seq<char>, Span),
    Uri(Seq<char>, Span),
}

impl View for Literal {
    type V = LiteralV;

    open spec fn view(&self) -> LiteralV {
        match self {
            Literal::Null(s) => LiteralV::Null(*s),
            Literal::Boolean(b, s) => LiteralV::Boolean(*b, *s),
            Literal::Float(t, s) => LiteralV::Float(t@, *s),
            Literal::Integer(t, s) => LiteralV::Integer(t@, *s),
            Literal::Path(t, s) => LiteralV::Path(t@, *s),
            Literal::PathTemplate(t, s) => LiteralV::PathTemplate(t@, *s),
            Literal::Uri(t, s) => LiteralV::Uri(t@, *s),
        }
    }
}

impl LiteralV {
    /// The span of the literal.
    pub open spec fn span(self) -> Span {
        match self {
            LiteralV::Null(s) => s,
            LiteralV::Boolean(_, s) => s,
            LiteralV::Float(_, s) => s,
            LiteralV::Integer(_, s) => s,
            LiteralV::Path(_, s) => s,
            LiteralV::PathTemplate(_, s) => s,
            LiteralV::Uri(_, s) => s,
        }
    }
}

impl Literal {
    /// The span of the literal.
    pub fn span(&self) -> (res: Span)
        ensures
            res == self@.span(),
    {
        match self {
            Literal::Null(s) => *s,
            Literal::Boolean(_, s) => *s,
            Literal::Float(_, s) => *s,
            Literal::Integer(_, s) => *s,
            Literal::Path(_, s) => *s,
            Literal::PathTemplate(_, s) => *s,
            Literal::Uri(_, s) => *s,
        }
    }

    /// The boolean literal `value`, with an empty span.
    pub fn from_bool(value: bool) -> (res: Literal)
        ensures
            res@ == LiteralV::Boolean(value, Span::spec_new(0, 0)),
    {
        Literal::Boolean(value, Span::initial())
    }
}

} // verus!
