//! The tokens that the parser consumes.

use vstd::prelude::*;

use crate::error::Error;
use crate::span::Span;

verus! {

/// Whether a comment is a line comment (`#`) or a block comment (`/* */`).
#[derive(Clone, Copy, Debug, PartialEq, Eq, Structural)]
pub enum CommentKind {
    Line,
    Block,
}

/// A piece of a string literal: literal text, or an interpolated token stream. Its `Debug`
/// text is given by `debug_text`.
pub enum StringFragment {
    Literal(String, Span),
    Interpolation(Vec<Token>, Span),
}

impl StringFragment {
    /// The span of the fragment.
    pub open spec fn spec_span(self) -> Span {
        match self {
            StringFragment::Literal(_, span) => span,
            StringFragment::Interpolation(_, span) => span,
        }
    }

    /// The span of the fragment.
    pub fn span(&self) -> (res: Span)
        ensures
            res == self.spec_span(),
    {
        match self {
            StringFragment::Literal(_, span) => *span,
            StringFragment::Interpolation(_, span) => *span,
        }
    }
}

/// A token of the Nix language. Its `Debug` text, which leaves out spans, is given by
/// `debug_text`.
pub enum Token {
    Eof(Span),
    Unknown(String, Span, Error),
    // Literals
    Comment(String, CommentKind, Span),
    Identifier(String, Span),
    Null(Span),
    Boolean(bool, Span),
    Float(String, Span),
    Integer(String, Span),
    Interpolation(Vec<Token>, Span),
    Path(String, Span),
    PathTemplate(String, Span),
    String(Vec<StringFragment>, Span),
    Uri(String, Span),
    // Operators
    Add(Span),
    Sub(Span),
    Mul(Span),
    Div(Span),
    IsEq(Span),
    NotEq(Span),
    LessThan(Span),
    LessThanEq(Span),
    GreaterThan(Span),
    GreaterThanEq(Span),
    LogicalAnd(Span),
    LogicalOr(Span),
    Concat(Span),
    Update(Span),
    Question(Span),
    Imply(Span),
    Not(Span),
    // Keywords
    Assert(Span),
    Else(Span),
    If(Span),
    In(Span),
    Inherit(Span),
    Let(Span),
    Or(Span),
    Rec(Span),
    Then(Span),
    With(Span),
    // Punctuation
    At(Span),
    Colon(Span),
    Comma(Span),
    Dot(Span),
    Ellipsis(Span),
    Eq(Span),
    Interpolate(Span),
    LBrace(Span),
    RBrace(Span),
    LBracket(Span),
    RBracket(Span),
    LParen(Span),
    RParen(Span),
    QuoteDouble(Span),
    QuoteSingle(Span),
    Semi(Span),
}

/// The kind of a token, without its contents.
#[derive(Clone, Copy, Debug, PartialEq, Eq, Structural)]
pub enum TokenKind {
    Eof,
    Unknown,
    Comment,
    Identifier,
    Null,
    Boolean,
    Float,
    Integer,
    Interpolation,
    Path,
    PathTemplate,
    String,
    Uri,
    Add,
    Sub,
    Mul,
    Div,
    IsEq,
    NotEq,
    LessThan,
    LessThanEq,
    GreaterThan,
    GreaterThanEq,
    LogicalAnd,
    LogicalOr,
    Concat,
    Update,
    Question,
    Imply,
    Not,
    Assert,
    Else,
    If,
    In,
    Inherit,
    Let,
    Or,
    Rec,
    Then,
    With,
    At,
    Colon,
    Comma,
    Dot,
    Ellipsis,
    Eq,
    Interpolate,
    LBrace,
    RBrace,
    LBracket,
    RBracket,
    LParen,
    RParen,
    QuoteDouble,
    QuoteSingle,
    Semi,
}

/// Text that `escape_debug` gives for `s` (the named result of `str::escape_debug`).
pub uninterp spec fn escape_debug_text(s: Seq<char>) -> Seq<char>;

/// Calls `str::escape_debug` and collects the escaped characters. The result depends on
/// `s` alone; what the escaping does to each character is not stated here.
#[verifier::external_body]
fn escape_debug(s: &str) -> (res: String)
    ensures
        res@ == escape_debug_text(s@),
{
    s.escape_debug().to_string()
}

impl TokenKind {
    /// What a token of this kind is called in messages.
    #[verifier::opaque]
    pub open spec fn spec_text(self) -> Seq<char> {
        match self {
            TokenKind::Eof => "<eof>"@,
            TokenKind::Unknown => "unknown token"@,
            TokenKind::Comment => "comment"@,
            TokenKind::Identifier => "identifier"@,
            TokenKind::Null => "null literal"@,
            TokenKind::Boolean => "boolean"@,
            TokenKind::Float => "float literal"@,
            TokenKind::Integer => "integer literal"@,
            TokenKind::Interpolation => "interpolation"@,
            TokenKind::Path => "path literal"@,
            TokenKind::PathTemplate => "path template"@,
            TokenKind::String => "string"@,
            TokenKind::Uri => "URI"@,
            TokenKind::Add => "operator `+`"@,
            TokenKind::Sub => "operator `-`"@,
            TokenKind::Mul => "operator `*`"@,
            TokenKind::Div => "operator `/`"@,
            TokenKind::IsEq => "operator `==`"@,
            TokenKind::NotEq => "operator `!=`"@,
            TokenKind::LessThan => "operator `<`"@,
            TokenKind::LessThanEq => "operator `<=`"@,
            TokenKind::GreaterThan => "operator `>`"@,
            TokenKind::GreaterThanEq => "operator `>`"@,
            TokenKind::LogicalAnd => "operator `&&`"@,
            TokenKind::LogicalOr => "operator `||`"@,
            TokenKind::Concat => "operator `++`"@,
            TokenKind::Update => "operator `//`"@,
            TokenKind::Question => "operator `?`"@,
            TokenKind::Imply => "operator `->`"@,
            TokenKind::Not => "unary operator `!`"@,
            TokenKind::Assert => "keyword `assert`"@,
            TokenKind::Else => "keyword `else`"@,
            TokenKind::If => "keyword `if`"@,
            TokenKind::In => "keyword `in`"@,
            TokenKind::Inherit => "keyword `inherit`"@,
            TokenKind::Let => "keyword `let`"@,
            TokenKind::Or => "keyword `or`"@,
            TokenKind::Rec => "keyword `rec`"@,
            TokenKind::Then => "keyword `then`"@,
            TokenKind::With => "keyword `with`"@,
            TokenKind::At => "at symbol (`@`)"@,
            TokenKind::Colon => "colon"@,
            TokenKind::Comma => "comma"@,
            TokenKind::Dot => "dot separator"@,
            TokenKind::Ellipsis => "ellipsis (`...`)"@,
            TokenKind::Eq => "equals sign"@,
            TokenKind::Interpolate => "interpolation sign (`${`)"@,
            TokenKind::LBrace => "left brace"@,
            TokenKind::RBrace => "right brace"@,
            TokenKind::LBracket => "left bracket"@,
            TokenKind::RBracket => "right bracket"@,
            TokenKind::LParen => "left parentheses"@,
            TokenKind::RParen => "right parentheses"@,
            TokenKind::QuoteDouble => "double quote"@,
            TokenKind::QuoteSingle => "multiline string open (`''`)"@,
            TokenKind::Semi => "semicolon"@,
        }
    }

    /// What a token of this kind is called in messages.
    pub fn text(self) -> (res: &'static str)
        ensures
            res@ == self.spec_text(),
    {
        reveal(TokenKind::spec_text);
        match self {
            TokenKind::Eof => "<eof>",
            TokenKind::Unknown => "unknown token",
            TokenKind::Comment => "comment",
            TokenKind::Identifier => "identifier",
            TokenKind::Null => "null literal",
            TokenKind::Boolean => "boolean",
            TokenKind::Float => "float literal",
            TokenKind::Integer => "integer literal",
            TokenKind::Interpolation => "interpolation",
            TokenKind::Path => "path literal",
            TokenKind::PathTemplate => "path template",
            TokenKind::String => "string",
            TokenKind::Uri => "URI",
            TokenKind::Add => "operator `+`",
            TokenKind::Sub => "operator `-`",
            TokenKind::Mul => "operator `*`",
            TokenKind::Div => "operator `/`",
            TokenKind::IsEq => "operator `==`",
            TokenKind::NotEq => "operator `!=`",
            TokenKind::LessThan => "operator `<`",
            TokenKind::LessThanEq => "operator `<=`",
            TokenKind::GreaterThan => "operator `>`",
            TokenKind::GreaterThanEq => "operator `>`",
            TokenKind::LogicalAnd => "operator `&&`",
            TokenKind::LogicalOr => "operator `||`",
            TokenKind::Concat => "operator `++`",
            TokenKind::Update => "operator `//`",
            TokenKind::Question => "operator `?`",
            TokenKind::Imply => "operator `->`",
            TokenKind::Not => "unary operator `!`",
            TokenKind::Assert => "keyword `assert`",
            TokenKind::Else => "keyword `else`",
            TokenKind::If => "keyword `if`",
            TokenKind::In => "keyword `in`",
            TokenKind::Inherit => "keyword `inherit`",
            TokenKind::Let => "keyword `let`",
            TokenKind::Or => "keyword `or`",
            TokenKind::Rec => "keyword `rec`",
            TokenKind::Then => "keyword `then`",
            TokenKind::With => "keyword `with`",
            TokenKind::At => "at symbol (`@`)",
            TokenKind::Colon => "colon",
            TokenKind::Comma => "comma",
            TokenKind::Dot => "dot separator",
            TokenKind::Ellipsis => "ellipsis (`...`)",
            TokenKind::Eq => "equals sign",
            TokenKind::Interpolate => "interpolation sign (`${`)",
            TokenKind::LBrace => "left brace",
            TokenKind::RBrace => "right brace",
            TokenKind::LBracket => "left bracket",
            TokenKind::RBracket => "right bracket",
            TokenKind::LParen => "left parentheses",
            TokenKind::RParen => "right parentheses",
            TokenKind::QuoteDouble => "double quote",
            TokenKind::QuoteSingle => "multiline string open (`''`)",
            TokenKind::Semi => "semicolon",
        }
    }
}

impl Token {
    /// The kind of the token.
    pub open spec fn spec_kind(self) -> TokenKind {
        match self {
            Token::Eof(_) => TokenKind::Eof,
            Token::Unknown(_, _, _) => TokenKind::Unknown,
            Token::Comment(_, _, _) => TokenKind::Comment,
            Token::Identifier(_, _) => TokenKind::Identifier,
            Token::Null(_) => TokenKind::Null,
            Token::Boolean(_, _) => TokenKind::Boolean,
            Token::Float(_, _) => TokenKind::Float,
            Token::Integer(_, _) => TokenKind::Integer,
            Token::Interpolation(_, _) => TokenKind::Interpolation,
            Token::Path(_, _) => TokenKind::Path,
            Token::PathTemplate(_, _) => TokenKind::PathTemplate,
            Token::String(_, _) => TokenKind::String,
            Token::Uri(_, _) => TokenKind::Uri,
            Token::Add(_) => TokenKind::Add,
            Token::Sub(_) => TokenKind::Sub,
            Token::Mul(_) => TokenKind::Mul,
            Token::Div(_) => TokenKind::Div,
            Token::IsEq(_) => TokenKind::IsEq,
            Token::NotEq(_) => TokenKind::NotEq,
            Token::LessThan(_) => TokenKind::LessThan,
            Token::LessThanEq(_) => TokenKind::LessThanEq,
            Token::GreaterThan(_) => TokenKind::GreaterThan,
            Token::GreaterThanEq(_) => TokenKind::GreaterThanEq,
            Token::LogicalAnd(_) => TokenKind::LogicalAnd,
            Token::LogicalOr(_) => TokenKind::LogicalOr,
            Token::Concat(_) => TokenKind::Concat,
            Token::Update(_) => TokenKind::Update,
            Token::Question(_) => TokenKind::Question,
            Token::Imply(_) => TokenKind::Imply,
            Token::Not(_) => TokenKind::Not,
            Token::Assert(_) => TokenKind::Assert,
            Token::Else(_) => TokenKind::Else,
            Token::If(_) => TokenKind::If,
            Token::In(_) => TokenKind::In,
            Token::Inherit(_) => TokenKind::Inherit,
            Token::Let(_) => TokenKind::Let,
            Token::Or(_) => TokenKind::Or,
            Token::Rec(_) => TokenKind::Rec,
            Token::Then(_) => TokenKind::Then,
            Token::With(_) => TokenKind::With,
            Token::At(_) => TokenKind::At,
            Token::Colon(_) => TokenKind::Colon,
            Token::Comma(_) => TokenKind::Comma,
            Token::Dot(_) => TokenKind::Dot,
            Token::Ellipsis(_) => TokenKind::Ellipsis,
            Token::Eq(_) => TokenKind::Eq,
            Token::Interpolate(_) => TokenKind::Interpolate,
            Token::LBrace(_) => TokenKind::LBrace,
            Token::RBrace(_) => TokenKind::RBrace,
            Token::LBracket(_) => TokenKind::LBracket,
            Token::RBracket(_) => TokenKind::RBracket,
            Token::LParen(_) => TokenKind::LParen,
            Token::RParen(_) => TokenKind::RParen,
            Token::QuoteDouble(_) => TokenKind::QuoteDouble,
            Token::QuoteSingle(_) => TokenKind::QuoteSingle,
            Token::Semi(_) => TokenKind::Semi,
        }
    }

    /// The kind of the token.
    pub fn kind(&self) -> (res: TokenKind)
        ensures
            res == self.spec_kind(),
    {
        match self {
            Token::Eof(_) => TokenKind::Eof,
            Token::Unknown(_, _, _) => TokenKind::Unknown,
            Token::Comment(_, _, _) => TokenKind::Comment,
            Token::Identifier(_, _) => TokenKind::Identifier,
            Token::Null(_) => TokenKind::Null,
            Token::Boolean(_, _) => TokenKind::Boolean,
            Token::Float(_, _) => TokenKind::Float,
            Token::Integer(_, _) => TokenKind::Integer,
            Token::Interpolation(_, _) => TokenKind::Interpolation,
            Token::Path(_, _) => TokenKind::Path,
            Token::PathTemplate(_, _) => TokenKind::PathTemplate,
            Token::String(_, _) => TokenKind::String,
            Token::Uri(_, _) => TokenKind::Uri,
            Token::Add(_) => TokenKind::Add,
            Token::Sub(_) => TokenKind::Sub,
            Token::Mul(_) => TokenKind::Mul,
            Token::Div(_) => TokenKind::Div,
            Token::IsEq(_) => TokenKind::IsEq,
            Token::NotEq(_) => TokenKind::NotEq,
            Token::LessThan(_) => TokenKind::LessThan,
            Token::LessThanEq(_) => TokenKind::LessThanEq,
            Token::GreaterThan(_) => TokenKind::GreaterThan,
            Token::GreaterThanEq(_) => TokenKind::GreaterThanEq,
            Token::LogicalAnd(_) => TokenKind::LogicalAnd,
            Token::LogicalOr(_) => TokenKind::LogicalOr,
            Token::Concat(_) => TokenKind::Concat,
            Token::Update(_) => TokenKind::Update,
            Token::Question(_) => TokenKind::Question,
            Token::Imply(_) => TokenKind::Imply,
            Token::Not(_) => TokenKind::Not,
            Token::Assert(_) => TokenKind::Assert,
            Token::Else(_) => TokenKind::Else,
            Token::If(_) => TokenKind::If,
            Token::In(_) => TokenKind::In,
            Token::Inherit(_) => TokenKind::Inherit,
            Token::Let(_) => TokenKind::Let,
            Token::Or(_) => TokenKind::Or,
            Token::Rec(_) => TokenKind::Rec,
            Token::Then(_) => TokenKind::Then,
            Token::With(_) => TokenKind::With,
            Token::At(_) => TokenKind::At,
            Token::Colon(_) => TokenKind::Colon,
            Token::Comma(_) => TokenKind::Comma,
            Token::Dot(_) => TokenKind::Dot,
            Token::Ellipsis(_) => TokenKind::Ellipsis,
            Token::Eq(_) => TokenKind::Eq,
            Token::Interpolate(_) => TokenKind::Interpolate,
            Token::LBrace(_) => TokenKind::LBrace,
            Token::RBrace(_) => TokenKind::RBrace,
            Token::LBracket(_) => TokenKind::LBracket,
            Token::RBracket(_) => TokenKind::RBracket,
            Token::LParen(_) => TokenKind::LParen,
            Token::RParen(_) => TokenKind::RParen,
            Token::QuoteDouble(_) => TokenKind::QuoteDouble,
            Token::QuoteSingle(_) => TokenKind::QuoteSingle,
            Token::Semi(_) => TokenKind::Semi,
        }
    }

    /// The span of the token.
    pub open spec fn spec_span(self) -> Span {
        match self {
            Token::Eof(span) => span,
            Token::Unknown(_, span, _) => span,
            Token::Comment(_, _, span) => span,
            Token::Identifier(_, span) => span,
            Token::Null(span) => span,
            Token::Boolean(_, span) => span,
            Token::Float(_, span) => span,
            Token::Integer(_, span) => span,
            Token::Interpolation(_, span) => span,
            Token::Path(_, span) => span,
            Token::PathTemplate(_, span) => span,
            Token::String(_, span) => span,
            Token::Uri(_, span) => span,
            Token::Add(span) => span,
            Token::Sub(span) => span,
            Token::Mul(span) => span,
            Token::Div(span) => span,
            Token::IsEq(span) => span,
            Token::NotEq(span) => span,
            Token::LessThan(span) => span,
            Token::LessThanEq(span) => span,
            Token::GreaterThan(span) => span,
            Token::GreaterThanEq(span) => span,
            Token::LogicalAnd(span) => span,
            Token::LogicalOr(span) => span,
            Token::Concat(span) => span,
            Token::Update(span) => span,
            Token::Question(span) => span,
            Token::Imply(span) => span,
            Token::Not(span) => span,
            Token::Assert(span) => span,
            Token::Else(span) => span,
            Token::If(span) => span,
            Token::In(span) => span,
            Token::Inherit(span) => span,
            Token::Let(span) => span,
            Token::Or(span) => span,
            Token::Rec(span) => span,
            Token::Then(span) => span,
            Token::With(span) => span,
            Token::At(span) => span,
            Token::Colon(span) => span,
            Token::Comma(span) => span,
            Token::Dot(span) => span,
            Token::Ellipsis(span) => span,
            Token::Eq(span) => span,
            Token::Interpolate(span) => span,
            Token::LBrace(span) => span,
            Token::RBrace(span) => span,
            Token::LBracket(span) => span,
            Token::RBracket(span) => span,
            Token::LParen(span) => span,
            Token::RParen(span) => span,
            Token::QuoteDouble(span) => span,
            Token::QuoteSingle(span) => span,
            Token::Semi(span) => span,
        }
    }

    /// The span of the token.
    pub fn span(&self) -> (res: Span)
        ensures
            res == self.spec_span(),
    {
        match self {
            Token::Eof(span) => *span,
            Token::Unknown(_, span, _) => *span,
            Token::Comment(_, _, span) => *span,
            Token::Identifier(_, span) => *span,
            Token::Null(span) => *span,
            Token::Boolean(_, span) => *span,
            Token::Float(_, span) => *span,
            Token::Integer(_, span) => *span,
            Token::Interpolation(_, span) => *span,
            Token::Path(_, span) => *span,
            Token::PathTemplate(_, span) => *span,
            Token::String(_, span) => *span,
            Token::Uri(_, span) => *span,
            Token::Add(span) => *span,
            Token::Sub(span) => *span,
            Token::Mul(span) => *span,
            Token::Div(span) => *span,
            Token::IsEq(span) => *span,
            Token::NotEq(span) => *span,
            Token::LessThan(span) => *span,
            Token::LessThanEq(span) => *span,
            Token::GreaterThan(span) => *span,
            Token::GreaterThanEq(span) => *span,
            Token::LogicalAnd(span) => *span,
            Token::LogicalOr(span) => *span,
            Token::Concat(span) => *span,
            Token::Update(span) => *span,
            Token::Question(span) => *span,
            Token::Imply(span) => *span,
            Token::Not(span) => *span,
            Token::Assert(span) => *span,
            Token::Else(span) => *span,
            Token::If(span) => *span,
            Token::In(span) => *span,
            Token::Inherit(span) => *span,
            Token::Let(span) => *span,
            Token::Or(span) => *span,
            Token::Rec(span) => *span,
            Token::Then(span) => *span,
            Token::With(span) => *span,
            Token::At(span) => *span,
            Token::Colon(span) => *span,
            Token::Comma(span) => *span,
            Token::Dot(span) => *span,
            Token::Ellipsis(span) => *span,
            Token::Eq(span) => *span,
            Token::Interpolate(span) => *span,
            Token::LBrace(span) => *span,
            Token::RBrace(span) => *span,
            Token::LBracket(span) => *span,
            Token::RBracket(span) => *span,
            Token::LParen(span) => *span,
            Token::RParen(span) => *span,
            Token::QuoteDouble(span) => *span,
            Token::QuoteSingle(span) => *span,
            Token::Semi(span) => *span,
        }
    }

    /// Whether the token is a comment.
    pub open spec fn spec_is_comment(self) -> bool {
        self.spec_kind() == TokenKind::Comment
    }

    /// Returns whether the token is a comment.
    pub fn is_comment(&self) -> (res: bool)
        ensures
            res == self.spec_is_comment(),
    {
        match self {
            Token::Comment(..) => true,
            _ => false,
        }
    }

    /// Whether the token is a keyword.
    pub open spec fn spec_is_keyword(self) -> bool {
        match self.spec_kind() {
            TokenKind::Assert | TokenKind::Else | TokenKind::If | TokenKind::In | TokenKind::Inherit | TokenKind::Let | TokenKind::Or | TokenKind::Rec | TokenKind::Then | TokenKind::With => true,
            _ => false,
        }
    }

    /// Returns whether the token is a keyword.
    pub fn is_keyword(&self) -> (res: bool)
        ensures
            res == self.spec_is_keyword(),
    {
        match self {
            Token::Assert(_)
            | Token::Else(_)
            | Token::If(_)
            | Token::In(_)
            | Token::Inherit(_)
            | Token::Let(_)
            | Token::Or(_)
            | Token::Rec(_)
            | Token::Then(_)
            | Token::With(_) => true,
            _ => false,
        }
    }

    /// Whether the token marks the end of the input.
    pub open spec fn spec_is_eof(self) -> bool {
        self.spec_kind() == TokenKind::Eof
    }

    /// A description of the token, for error messages.
    #[verifier::opaque]
    pub open spec fn spec_description(self) -> Seq<char> {
        match self {
            Token::Unknown(text, _, _) => "`"@ + escape_debug_text(text@) + "`"@,
            Token::Identifier(ident, _) => "identifier `"@ + ident@ + "`"@,
            _ => self.spec_kind().spec_text(),
        }
    }

    /// Returns a description of the token, for error messages.
    pub fn description(&self) -> (res: String)
        ensures
            res@ == self.spec_description(),
    {
        reveal(Token::spec_description);
        reveal(TokenKind::spec_text);
        match self {
            Token::Unknown(text, _, _) => {
                let mut s = String::from_str("`");
                let escaped = escape_debug(text.as_str());
                s.append(escaped.as_str());
                s.append("`");
                s
            },
            Token::Identifier(ident, _) => {
                let mut s = String::from_str("identifier `");
                s.append(ident.as_str());
                s.append("`");
                s
            },
            _ => String::from_str(self.kind().text()),
        }
    }
}

/// A window onto a slice of tokens, remembering where it stands in the stream it was cut from.
#[derive(Clone, Copy)]
pub struct Tokens<'a> {
    tokens: &'a [Token],
    start: usize,
    end: usize,
}

impl<'a> Tokens<'a> {
    /// The tokens in the window.
    pub closed spec fn spec_tokens(self) -> Seq<Token> {
        self.tokens@
    }

    /// The recorded start offset.
    pub closed spec fn spec_start(self) -> usize {
        self.start
    }

    /// The recorded end offset.
    pub closed spec fn spec_end(self) -> usize {
        self.end
    }

    /// A window onto all of `tokens`.
    pub fn new(tokens: &'a [Token]) -> (res: Tokens<'a>)
        ensures
            res.spec_tokens() == tokens@,
            res.spec_start() == 0,
            res.spec_end() == tokens@.len(),
    {
        Tokens { tokens, start: 0, end: tokens.len() }
    }

    /// The tokens in the window.
    pub fn as_slice(&self) -> (res: &'a [Token])
        ensures
            res@ == self.spec_tokens(),
    {
        self.tokens
    }

    /// The first token of the window.
    pub fn current(&self) -> (res: &'a Token)
        requires
            self.spec_tokens().len() > 0,
        ensures
            *res == self.spec_tokens()[0],
    {
        &self.tokens[0]
    }

    /// The number of tokens in the window.
    pub fn input_len(&self) -> (res: usize)
        ensures
            res == self.spec_tokens().len(),
    {
        self.tokens.len()
    }

    /// The window onto the first `count` tokens.
    pub fn take(&self, count: usize) -> (res: Tokens<'a>)
        requires
            count <= self.spec_tokens().len(),
        ensures
            res.spec_tokens() == self.spec_tokens().subrange(0, count as int),
            res.spec_start() == 0,
            res.spec_end() == count,
    {
        Tokens { tokens: vstd::slice::slice_subrange(self.tokens, 0, count), start: 0, end: count }
    }

    /// Splits the window after `count` tokens, giving the suffix first and the prefix second.
    pub fn take_split(&self, count: usize) -> (res: (Tokens<'a>, Tokens<'a>))
        requires
            count <= self.spec_tokens().len(),
        ensures
            res.0.spec_tokens() == self.spec_tokens().subrange(
                count as int,
                self.spec_tokens().len() as int,
            ),
            res.0.spec_start() == 0,
            res.0.spec_end() == self.spec_tokens().len() - count,
            res.1.spec_tokens() == self.spec_tokens().subrange(0, count as int),
            res.1.spec_start() == 0,
            res.1.spec_end() == count,
    {
        let (prefix, suffix) = self.tokens.split_at(count);
        let first = Tokens { tokens: prefix, start: 0, end: prefix.len() };
        let second = Tokens { tokens: suffix, start: 0, end: suffix.len() };
        (second, first)
    }

    /// `Some(count)` when the window holds at least `count` tokens.
    pub fn slice_index(&self, count: usize) -> (res: Option<usize>)
        ensures
            res == (if self.spec_tokens().len() >= count {
                Some(count)
            } else {
                None
            }),
    {
        if self.tokens.len() >= count {
            Some(count)
        } else {
            None
        }
    }

    /// The window onto the tokens `from..to`, with offsets moved by the window's start.
    pub fn slice(&self, from: usize, to: usize) -> (res: Tokens<'a>)
        requires
            from <= to <= self.spec_tokens().len(),
            self.spec_start() + to <= usize::MAX,
        ensures
            res.spec_tokens() == self.spec_tokens().subrange(from as int, to as int),
            res.spec_start() == self.spec_start() + from,
            res.spec_end() == self.spec_start() + to,
    {
        Tokens {
            tokens: vstd::slice::slice_subrange(self.tokens, from, to),
            start: self.start + from,
            end: self.start + to,
        }
    }

    /// The window onto the tokens `..to`.
    pub fn slice_to(&self, to: usize) -> (res: Tokens<'a>)
        requires
            to <= self.spec_tokens().len(),
            self.spec_start() + to <= usize::MAX,
        ensures
            res.spec_tokens() == self.spec_tokens().subrange(0, to as int),
            res.spec_start() == self.spec_start(),
            res.spec_end() == self.spec_start() + to,
    {
        self.slice(0, to)
    }

    /// The window onto the tokens `from..`, measured by the recorded offsets.
    pub fn slice_from(&self, from: usize) -> (res: Tokens<'a>)
        requires
            self.spec_start() <= self.spec_end(),
            from <= self.spec_end() - self.spec_start() <= self.spec_tokens().len(),
        ensures
            res.spec_tokens() == self.spec_tokens().subrange(
                from as int,
                self.spec_end() - self.spec_start(),
            ),
            res.spec_start() == self.spec_start() + from,
            res.spec_end() == self.spec_end(),
    {
        self.slice(from, self.end - self.start)
    }

    /// The same window.
    pub fn slice_full(&self) -> (res: Tokens<'a>)
        ensures
            res == *self,
    {
        Tokens { tokens: self.tokens, start: self.start, end: self.end }
    }

    /// The tokens of the window between its start and end offsets, as `Debug` writes a list
    /// of them.
    pub fn to_string(&self) -> (res: String)
        requires
            self.spec_start() <= self.spec_end() <= self.spec_tokens().len(),
        ensures
            res@ == crate::lexer::debug::list_text(
                crate::lexer::debug::tokens_debug_texts(
                    self.spec_tokens().subrange(self.spec_start() as int, self.spec_end() as int),
                ),
            ),
    {
        crate::lexer::debug::window_list(self.tokens, self.start, self.end)
    }

    /// The window as `Debug` writes it: `Tokens(...)` around the list of its tokens.
    pub fn debug_text(&self) -> (res: String)
        requires
            self.spec_start() <= self.spec_end() <= self.spec_tokens().len(),
        ensures
            res@ == crate::lexer::debug::tuple_text(
                "Tokens"@,
                crate::lexer::debug::list_text(
                    crate::lexer::debug::tokens_debug_texts(
                        self.spec_tokens().subrange(self.spec_start() as int, self.spec_end() as int),
                    ),
                ),
            ),
    {
        crate::lexer::debug::tuple("Tokens", self.to_string())
    }

    /// The span from the start of the first token to the end of the last one; the empty
    /// span at offset 0 when the window is empty.
    pub open spec fn spec_to_span(self) -> Span {
        let toks = self.spec_tokens();
        if toks.len() == 0 {
            Span::spec_new(0, 0)
        } else {
            Span::spec_new(toks[0].spec_span().lo(), toks.last().spec_span().hi())
        }
    }

    /// The span covered by the window.
    pub fn to_span(&self) -> (res: Span)
        requires
            self.spec_tokens().len() > 0 ==> self.spec_tokens()[0].spec_span().lo()
                <= self.spec_tokens().last().spec_span().hi(),
        ensures
            res == self.spec_to_span(),
    {
        let n = self.tokens.len();
        let start = if n > 0 {
            self.tokens[0].span().start()
        } else {
            0
        };
        let end = if n > 0 {
            self.tokens[n - 1].span().end()
        } else {
            0
        };
        Span::new(start, end)
    }
}

/// The spans of the tokens start in order.
pub open spec fn spans_ordered(toks: Seq<Token>) -> bool {
    forall|i: int, j: int|
        0 <= i <= j < toks.len() ==> toks[i].spec_span().lo() <= toks[j].spec_span().lo()
}

/// The spans of the tokens start in order, and so do those of every token stream nested in
/// an interpolation or a string.
pub open spec fn well_ordered(toks: Seq<Token>) -> bool
    decreases toks, toks.len() + 1,
{
    spans_ordered(toks) && nested_ordered_from(toks, 0)
}

/// The token streams nested in the tokens from the `i`-th on are well ordered.
pub open spec fn nested_ordered_from(toks: Seq<Token>, i: int) -> bool
    decreases toks, toks.len() - i,
{
    if i < 0 || i >= toks.len() {
        true
    } else {
        token_ordered(toks[i]) && nested_ordered_from(toks, i + 1)
    }
}

/// The token streams nested in `t` are well ordered.
pub open spec fn token_ordered(t: Token) -> bool
    decreases t, 0int,
{
    match t {
        Token::Interpolation(v, _) => well_ordered(v@),
        Token::String(frags, _) => fragments_ordered_from(frags@, 0),
        _ => true,
    }
}

/// The token streams nested in the fragments from the `j`-th on are well ordered.
pub open spec fn fragments_ordered_from(frags: Seq<StringFragment>, j: int) -> bool
    decreases frags, frags.len() - j,
{
    if j < 0 || j >= frags.len() {
        true
    } else {
        match frags[j] {
            StringFragment::Interpolation(v, _) => well_ordered(v@) && fragments_ordered_from(
                frags,
                j + 1,
            ),
            StringFragment::Literal(..) => fragments_ordered_from(frags, j + 1),
        }
    }
}

/// Each token of a well-ordered stream has well-ordered nested streams.
pub proof fn lemma_token_ordered(toks: Seq<Token>, i: int, k: int)
    requires
        nested_ordered_from(toks, i),
        0 <= i <= k < toks.len(),
    ensures
        token_ordered(toks[k]),
    decreases k - i,
{
    if i < k {
        lemma_token_ordered(toks, i + 1, k);
    }
}

/// Each interpolation of well-ordered fragments holds a well-ordered stream.
pub proof fn lemma_fragment_ordered(frags: Seq<StringFragment>, j: int, k: int)
    requires
        fragments_ordered_from(frags, j),
        0 <= j <= k < frags.len(),
    ensures
        frags[k] matches StringFragment::Interpolation(v, _) ==> well_ordered(v@),
        fragments_ordered_from(frags, k),
    decreases k - j,
{
    if j < k {
        lemma_fragment_ordered(frags, j + 1, k);
    }
}

/// Tokens from the `i`-th on whose nested streams are all well ordered make a stream whose
/// nested streams from `i` on are well ordered.
proof fn lemma_nested_ordered_from(toks: Seq<Token>, i: int)
    requires
        0 <= i <= toks.len(),
        forall|k: int| i <= k < toks.len() ==> #[trigger] token_ordered(toks[k]),
    ensures
        nested_ordered_from(toks, i),
    decreases toks.len() - i,
{
    if i < toks.len() {
        assert(token_ordered(toks[i]));
        lemma_nested_ordered_from(toks, i + 1);
    }
}

/// Fragments from the `j`-th on whose interpolations are all well ordered.
proof fn lemma_fragments_ordered_from(frags: Seq<StringFragment>, j: int)
    requires
        0 <= j <= frags.len(),
        forall|k: int| j <= k < frags.len() ==> (#[trigger] frags[k] matches StringFragment::Interpolation(v, _) ==> well_ordered(v@)),
    ensures
        fragments_ordered_from(frags, j),
    decreases frags.len() - j,
{
    if j < frags.len() {
        lemma_fragments_ordered_from(frags, j + 1);
    }
}

/// Whether the spans of the tokens start in order, and so do those of every token stream
/// nested in an interpolation or a string: what the parsers require of their input.
pub fn is_well_ordered(toks: &[Token]) -> (res: bool)
    ensures
        res == well_ordered(toks@),
    decreases toks@,
{
    let n = toks.len();
    let mut k: usize = 1;
    while k < n
        invariant
            1 <= k || n == 0,
            n == toks@.len(),
            forall|i: int, j: int|
                0 <= i <= j < k && j < n ==> toks@[i].spec_span().lo() <= toks@[j].spec_span().lo(),
        decreases n - k,
    {
        if toks[k].span().start() < toks[k - 1].span().start() {
            return false;
        }
        k = k + 1;
    }
    let mut i: usize = 0;
    while i < n
        invariant
            n == toks@.len(),
            i <= n,
            spans_ordered(toks@),
            forall|k: int| 0 <= k < i ==> #[trigger] token_ordered(toks@[k]),
        decreases n - i,
    {
        proof {
            assert(decreases_to!(toks@ => toks@[i as int]));
        }
        if !token_is_well_ordered(&toks[i]) {
            proof {
                if well_ordered(toks@) {
                    lemma_token_ordered(toks@, 0, i as int);
                }
            }
            return false;
        }
        i = i + 1;
    }
    proof {
        lemma_nested_ordered_from(toks@, 0);
    }
    true
}

/// Whether the token streams nested in `t` are well ordered.
fn token_is_well_ordered(t: &Token) -> (res: bool)
    ensures
        res == token_ordered(*t),
    decreases t,
{
    match t {
        Token::Interpolation(v, _) => is_well_ordered(v.as_slice()),
        Token::String(frags, _) => fragments_are_well_ordered(frags),
        _ => true,
    }
}

/// Whether the token streams of the interpolations among `frags` are well ordered.
fn fragments_are_well_ordered(frags: &Vec<StringFragment>) -> (res: bool)
    ensures
        res == fragments_ordered_from(frags@, 0),
    decreases frags,
{
    let n = frags.len();
    let mut j: usize = 0;
    while j < n
        invariant
            n == frags@.len(),
            j <= n,
            forall|k: int|
                0 <= k < j ==> (#[trigger] frags@[k] matches StringFragment::Interpolation(v, _)
                    ==> well_ordered(v@)),
        decreases n - j,
    {
        proof {
            assert(decreases_to!(frags@ => frags@[j as int]));
        }
        match &frags[j] {
            StringFragment::Interpolation(v, _) => {
                if !is_well_ordered(v.as_slice()) {
                    proof {
                        if fragments_ordered_from(frags@, 0) {
                            lemma_fragment_ordered(frags@, 0, j as int);
                        }
                    }
                    return false;
                }
            },
            StringFragment::Literal(..) => {},
        }
        j = j + 1;
    }
    proof {
        lemma_fragments_ordered_from(frags@, 0);
    }
    true
}

} // verus!
