//! Parse errors.

use vstd::prelude::*;

use crate::span::{span_debug_text, Span};
use crate::text::{debug_quoted, str_debug_text};

verus! {

/// An unexpected token was found.
#[derive(Debug, PartialEq)]
pub struct UnexpectedError {
    found: String,
    span: Span,
}

impl UnexpectedError {
    /// Records that `found` (a description of a token) was not expected at `span`.
    pub fn new(found: String, span: Span) -> (res: UnexpectedError)
        ensures
            res.found() == found,
            res.span() == span,
    {
        UnexpectedError { found, span }
    }

    /// The description of what was found.
    pub closed spec fn found(self) -> String {
        self.found
    }

    /// Where it was found.
    pub closed spec fn span(self) -> Span {
        self.span
    }

    /// The description of what was found.
    pub fn found_text(&self) -> (res: &String)
        ensures
            *res == self.found(),
    {
        &self.found
    }

    /// Where it was found.
    pub fn get_span(&self) -> (res: Span)
        ensures
            res == self.span(),
    {
        self.span
    }
}

impl Clone for UnexpectedError {
    fn clone(&self) -> (res: Self)
        ensures
            res == *self,
    {
        UnexpectedError { found: self.found.clone(), span: self.span }
    }
}

/// A specific token was expected, but something else was found.
#[derive(Debug, PartialEq)]
pub struct ExpectedFoundError {
    expected: String,
    found: String,
    span: Span,
}

impl ExpectedFoundError {
    /// Records that `expected` was wanted where `found` stands, at `span`.
    pub fn new(expected: String, found: String, span: Span) -> (res: ExpectedFoundError)
        ensures
            res.expected() == expected,
            res.found() == found,
            res.span() == span,
    {
        ExpectedFoundError { expected, found, span }
    }

    /// The description of what was expected.
    pub closed spec fn expected(self) -> String {
        self.expected
    }

    /// The description of what was found.
    pub closed spec fn found(self) -> String {
        self.found
    }

    /// Where it was found.
    pub closed spec fn span(self) -> Span {
        self.span
    }

    /// The description of what was expected.
    pub fn expected_text(&self) -> (res: &String)
        ensures
            *res == self.expected(),
    {
        &self.expected
    }

    /// The description of what was found.
    pub fn found_text(&self) -> (res: &String)
        ensures
            *res == self.found(),
    {
        &self.found
    }

    /// Where it was found.
    pub fn get_span(&self) -> (res: Span)
        ensures
            res == self.span(),
    {
        self.span
    }
}

impl Clone for ExpectedFoundError {
    fn clone(&self) -> (res: Self)
        ensures
            res == *self,
    {
        ExpectedFoundError {
            expected: self.expected.clone(),
            found: self.found.clone(),
            span: self.span,
        }
    }
}

/// A parse error.
#[derive(Debug, PartialEq)]
pub enum Error {
    /// An unexpected token.
    Unexpected(UnexpectedError),
    /// A token other than the expected one.
    ExpectedFound(ExpectedFoundError),
}

/// The mathematical content of an error: its texts as character sequences.
pub enum ErrorView {
    Unexpected(Seq<char>, Span),
    ExpectedFound(Seq<char>, Seq<char>, Span),
}

impl View for Error {
    type V = ErrorView;

    open spec fn view(&self) -> ErrorView {
        match self {
            Error::Unexpected(e) => ErrorView::Unexpected(e.found()@, e.span()),
            Error::ExpectedFound(e) => ErrorView::ExpectedFound(e.expected()@, e.found()@, e.span()),
        }
    }
}

impl Error {
    /// The span of the source code that the error is about.
    pub open spec fn spec_span(self) -> Span {
        match self {
            Error::Unexpected(e) => e.span(),
            Error::ExpectedFound(e) => e.span(),
        }
    }

    /// The span of the source code that the error is about.
    pub fn span(&self) -> (res: Span)
        ensures
            res == self.spec_span(),
    {
        match self {
            Error::Unexpected(e) => e.get_span(),
            Error::ExpectedFound(e) => e.get_span(),
        }
    }
}

impl Clone for Error {
    fn clone(&self) -> (res: Self)
        ensures
            res == *self,
    {
        match self {
            Error::Unexpected(e) => Error::Unexpected(e.clone()),
            Error::ExpectedFound(e) => Error::ExpectedFound(e.clone()),
        }
    }
}

/// The text in which `Debug` writes an error.
pub open spec fn error_debug_text(e: Error) -> Seq<char> {
    match e {
        Error::Unexpected(u) => "Unexpected(UnexpectedError { found: "@ + str_debug_text(
            u.found()@,
        ) + ", span: "@ + span_debug_text(u.span()) + " })"@,
        Error::ExpectedFound(x) => "ExpectedFound(ExpectedFoundError { expected: "@
            + str_debug_text(x.expected()@) + ", found: "@ + str_debug_text(x.found()@)
            + ", span: "@ + span_debug_text(x.span()) + " })"@,
    }
}

impl Error {
    /// The error as `Debug` writes it.
    pub fn debug_text(&self) -> (res: String)
        ensures
            res@ == error_debug_text(*self),
    {
        match self {
            Error::Unexpected(u) => {
                let mut s = String::from_str("Unexpected(UnexpectedError { found: ");
                let f = debug_quoted(u.found_text().as_str());
                s.append(f.as_str());
                s.append(", span: ");
                let sp = u.get_span().debug_text();
                s.append(sp.as_str());
                s.append(" })");
                s
            },
            Error::ExpectedFound(x) => {
                let mut s = String::from_str("ExpectedFound(ExpectedFoundError { expected: ");
                let e = debug_quoted(x.expected_text().as_str());
                s.append(e.as_str());
                s.append(", found: ");
                let f = debug_quoted(x.found_text().as_str());
                s.append(f.as_str());
                s.append(", span: ");
                let sp = x.get_span().debug_text();
                s.append(sp.as_str());
                s.append(" })");
                s
            },
        }
    }
}

/// The views of a sequence of errors.
pub open spec fn errors_view(s: Seq<Error>) -> Seq<ErrorView> {
    s.map_values(|e: Error| e@)
}

/// The view of a concatenation is the concatenation of the views.
pub proof fn lemma_errors_view_add(a: Seq<Error>, b: Seq<Error>)
    ensures
        errors_view(a + b) == errors_view(a) + errors_view(b),
{
    assert(errors_view(a + b) =~= errors_view(a) + errors_view(b));
}

/// A stack of errors, in the order in which they were found.
#[derive(Debug, PartialEq)]
pub struct Errors {
    errors: Vec<Error>,
}

impl View for Errors {
    type V = Seq<Error>;

    closed spec fn view(&self) -> Seq<Error> {
        self.errors@
    }
}

impl Errors {
    /// An empty stack.
    pub fn new() -> (res: Errors)
        ensures
            res@ == Seq::<Error>::empty(),
    {
        Errors { errors: Vec::new() }
    }

    /// The stack holding the given errors.
    pub fn from_vec(errors: Vec<Error>) -> (res: Errors)
        ensures
            res@ == errors@,
    {
        Errors { errors }
    }

    /// Pushes an error on top of the stack.
    pub fn push(&mut self, error: Error)
        ensures
            final(self)@ == old(self)@.push(error),
    {
        self.errors.push(error);
    }

    /// Appends all errors of `other`, in order.
    pub fn extend(&mut self, other: Errors)
        ensures
            final(self)@ == old(self)@ + other@,
    {
        let mut other = other;
        self.errors.append(&mut other.errors);
    }

    /// Whether the stack is empty.
    pub fn is_empty(&self) -> (res: bool)
        ensures
            res == (self@.len() == 0),
    {
        self.errors.len() == 0
    }

    /// The number of errors.
    pub fn len(&self) -> (res: usize)
        ensures
            res == self@.len(),
    {
        self.errors.len()
    }

    /// The error at position `i`.
    pub fn get(&self, i: usize) -> (res: &Error)
        requires
            i < self@.len(),
        ensures
            *res == self@[i as int],
    {
        &self.errors[i]
    }

    /// The errors, in order.
    pub fn into_vec(self) -> (res: Vec<Error>)
        ensures
            res@ == self@,
    {
        self.errors
    }
}

impl Clone for Errors {
    fn clone(&self) -> (res: Self)
        ensures
            res@ == self@,
    {
        let mut errors: Vec<Error> = Vec::new();
        let n = self.errors.len();
        for i in 0..n
            invariant
                n == self.errors@.len(),
                errors@ == self.errors@.take(i as int),
        {
            errors.push(self.errors[i].clone());
            assert(errors@ =~= self.errors@.take(i + 1));
        }
        assert(self.errors@.take(n as int) =~= self.errors@);
        Errors { errors }
    }
}

} // verus!
