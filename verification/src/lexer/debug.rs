//! The text in which `Debug` writes tokens: the variant and its contents, without spans.

use vstd::prelude::*;

use crate::ast::display::join_texts;
use crate::error::error_debug_text;
use crate::lexer::tokens::{StringFragment, Token, TokenKind};
use crate::text::{debug_quoted, str_debug_text};

verus! {

impl TokenKind {
    /// The name of the kind's variant.
    pub open spec fn spec_name(self) -> Seq<char> {
        match self {
            TokenKind::Eof => "Eof"@,
            TokenKind::Unknown => "Unknown"@,
            TokenKind::Comment => "Comment"@,
            TokenKind::Identifier => "Identifier"@,
            TokenKind::Null => "Null"@,
            TokenKind::Boolean => "Boolean"@,
            TokenKind::Float => "Float"@,
            TokenKind::Integer => "Integer"@,
            TokenKind::Interpolation => "Interpolation"@,
            TokenKind::Path => "Path"@,
            TokenKind::PathTemplate => "PathTemplate"@,
            TokenKind::String => "String"@,
            TokenKind::Uri => "Uri"@,
            TokenKind::Add => "Add"@,
            TokenKind::Sub => "Sub"@,
            TokenKind::Mul => "Mul"@,
            TokenKind::Div => "Div"@,
            TokenKind::IsEq => "IsEq"@,
            TokenKind::NotEq => "NotEq"@,
            TokenKind::LessThan => "LessThan"@,
            TokenKind::LessThanEq => "LessThanEq"@,
            TokenKind::GreaterThan => "GreaterThan"@,
            TokenKind::GreaterThanEq => "GreaterThanEq"@,
            TokenKind::LogicalAnd => "LogicalAnd"@,
            TokenKind::LogicalOr => "LogicalOr"@,
            TokenKind::Concat => "Concat"@,
            TokenKind::Update => "Update"@,
            TokenKind::Question => "Question"@,
            TokenKind::Imply => "Imply"@,
            TokenKind::Not => "Not"@,
            TokenKind::Assert => "Assert"@,
            TokenKind::Else => "Else"@,
            TokenKind::If => "If"@,
            TokenKind::In => "In"@,
            TokenKind::Inherit => "Inherit"@,
            TokenKind::Let => "Let"@,
            TokenKind::Or => "Or"@,
            TokenKind::Rec => "Rec"@,
            TokenKind::Then => "Then"@,
            TokenKind::With => "With"@,
            TokenKind::At => "At"@,
            TokenKind::Colon => "Colon"@,
            TokenKind::Comma => "Comma"@,
            TokenKind::Dot => "Dot"@,
            TokenKind::Ellipsis => "Ellipsis"@,
            TokenKind::Eq => "Eq"@,
            TokenKind::Interpolate => "Interpolate"@,
            TokenKind::LBrace => "LBrace"@,
            TokenKind::RBrace => "RBrace"@,
            TokenKind::LBracket => "LBracket"@,
            TokenKind::RBracket => "RBracket"@,
            TokenKind::LParen => "LParen"@,
            TokenKind::RParen => "RParen"@,
            TokenKind::QuoteDouble => "QuoteDouble"@,
            TokenKind::QuoteSingle => "QuoteSingle"@,
            TokenKind::Semi => "Semi"@,
        }
    }

    /// The name of the kind's variant.
    pub fn name(self) -> (res: &'static str)
        ensures
            res@ == self.spec_name(),
    {
        match self {
            TokenKind::Eof => "Eof",
            TokenKind::Unknown => "Unknown",
            TokenKind::Comment => "Comment",
            TokenKind::Identifier => "Identifier",
            TokenKind::Null => "Null",
            TokenKind::Boolean => "Boolean",
            TokenKind::Float => "Float",
            TokenKind::Integer => "Integer",
            TokenKind::Interpolation => "Interpolation",
            TokenKind::Path => "Path",
            TokenKind::PathTemplate => "PathTemplate",
            TokenKind::String => "String",
            TokenKind::Uri => "Uri",
            TokenKind::Add => "Add",
            TokenKind::Sub => "Sub",
            TokenKind::Mul => "Mul",
            TokenKind::Div => "Div",
            TokenKind::IsEq => "IsEq",
            TokenKind::NotEq => "NotEq",
            TokenKind::LessThan => "LessThan",
            TokenKind::LessThanEq => "LessThanEq",
            TokenKind::GreaterThan => "GreaterThan",
            TokenKind::GreaterThanEq => "GreaterThanEq",
            TokenKind::LogicalAnd => "LogicalAnd",
            TokenKind::LogicalOr => "LogicalOr",
            TokenKind::Concat => "Concat",
            TokenKind::Update => "Update",
            TokenKind::Question => "Question",
            TokenKind::Imply => "Imply",
            TokenKind::Not => "Not",
            TokenKind::Assert => "Assert",
            TokenKind::Else => "Else",
            TokenKind::If => "If",
            TokenKind::In => "In",
            TokenKind::Inherit => "Inherit",
            TokenKind::Let => "Let",
            TokenKind::Or => "Or",
            TokenKind::Rec => "Rec",
            TokenKind::Then => "Then",
            TokenKind::With => "With",
            TokenKind::At => "At",
            TokenKind::Colon => "Colon",
            TokenKind::Comma => "Comma",
            TokenKind::Dot => "Dot",
            TokenKind::Ellipsis => "Ellipsis",
            TokenKind::Eq => "Eq",
            TokenKind::Interpolate => "Interpolate",
            TokenKind::LBrace => "LBrace",
            TokenKind::RBrace => "RBrace",
            TokenKind::LBracket => "LBracket",
            TokenKind::RBracket => "RBracket",
            TokenKind::LParen => "LParen",
            TokenKind::RParen => "RParen",
            TokenKind::QuoteDouble => "QuoteDouble",
            TokenKind::QuoteSingle => "QuoteSingle",
            TokenKind::Semi => "Semi",
        }
    }
}

/// `name(inner)`.
pub open spec fn tuple_text(name: Seq<char>, inner: Seq<char>) -> Seq<char> {
    name + "("@ + inner + ")"@
}

/// The items between brackets, separated by commas.
pub open spec fn list_text(items: Seq<Seq<char>>) -> Seq<char> {
    "["@ + join_texts(items, ", "@) + "]"@
}

/// The text in which `Debug` writes a token.
pub open spec fn token_debug_text(t: Token) -> Seq<char>
    decreases t,
{
    match t {
        Token::Unknown(text, _, e) => tuple_text(
            "Unknown"@,
            str_debug_text(text@) + ", "@ + error_debug_text(e),
        ),
        Token::Comment(text, _, _) => tuple_text("Comment"@, str_debug_text(text@)),
        Token::Identifier(text, _) => tuple_text("Identifier"@, str_debug_text(text@)),
        Token::Boolean(b, _) => tuple_text(
            "Boolean"@,
            if b {
                "true"@
            } else {
                "false"@
            },
        ),
        Token::Float(text, _) => tuple_text("Float"@, str_debug_text(text@)),
        Token::Integer(text, _) => tuple_text("Integer"@, str_debug_text(text@)),
        Token::Interpolation(ts, _) => tuple_text("Interpolation"@, list_text(tokens_debug_texts(ts@))),
        Token::Path(text, _) => tuple_text("Path"@, str_debug_text(text@)),
        Token::PathTemplate(text, _) => tuple_text("PathTemplate"@, str_debug_text(text@)),
        Token::String(fs, _) => tuple_text("String"@, list_text(fragments_debug_texts(fs@))),
        Token::Uri(text, _) => tuple_text("Uri"@, str_debug_text(text@)),
        _ => t.spec_kind().spec_name(),
    }
}

/// The texts in which `Debug` writes the tokens, in order.
pub open spec fn tokens_debug_texts(ts: Seq<Token>) -> Seq<Seq<char>>
    decreases ts,
{
    Seq::new(
        ts.len(),
        |i: int|
            if 0 <= i < ts.len() {
                token_debug_text(ts[i])
            } else {
                Seq::empty()
            },
    )
}

/// The text in which `Debug` writes a string fragment.
pub open spec fn fragment_debug_text(f: StringFragment) -> Seq<char>
    decreases f,
{
    match f {
        StringFragment::Literal(text, _) => tuple_text("Literal"@, str_debug_text(text@)),
        StringFragment::Interpolation(ts, _) => tuple_text(
            "Interpolation"@,
            list_text(tokens_debug_texts(ts@)),
        ),
    }
}

/// The texts in which `Debug` writes the fragments, in order.
pub open spec fn fragments_debug_texts(fs: Seq<StringFragment>) -> Seq<Seq<char>>
    decreases fs,
{
    Seq::new(
        fs.len(),
        |i: int|
            if 0 <= i < fs.len() {
                fragment_debug_text(fs[i])
            } else {
                Seq::empty()
            },
    )
}

/// `name(inner)`.
pub(crate) fn tuple(name: &str, inner: String) -> (res: String)
    ensures
        res@ == tuple_text(name@, inner@),
{
    let mut s = String::from_str(name);
    s.append("(");
    s.append(inner.as_str());
    s.append(")");
    s
}

/// `name("text")`, with the text quoted and escaped.
fn quoted_tuple(name: &str, text: &String) -> (res: String)
    ensures
        res@ == tuple_text(name@, str_debug_text(text@)),
{
    tuple(name, debug_quoted(text.as_str()))
}

/// The tokens between brackets, separated by commas.
fn tokens_list(ts: &Vec<Token>) -> (res: String)
    ensures
        res@ == list_text(tokens_debug_texts(ts@)),
    decreases ts,
{
    let ghost parts = tokens_debug_texts(ts@);
    let mut s = String::from_str("[");
    let mut i: usize = 0;
    while i < ts.len()
        invariant
            parts == tokens_debug_texts(ts@),
            i <= ts.len(),
            s@ == "["@ + join_texts(parts.take(i as int), ", "@),
        decreases ts.len() - i,
    {
        let t = ts[i].debug_text();
        proof {
            crate::ast::display::lemma_join_step(parts, ", "@, i as int);
        }
        if i > 0 {
            s.append(", ");
        }
        s.append(t.as_str());
        i = i + 1;
    }
    assert(parts.take(ts.len() as int) =~= parts);
    s.append("]");
    s
}

/// The fragments between brackets, separated by commas.
fn fragments_list(fs: &Vec<StringFragment>) -> (res: String)
    ensures
        res@ == list_text(fragments_debug_texts(fs@)),
    decreases fs,
{
    let ghost parts = fragments_debug_texts(fs@);
    let mut s = String::from_str("[");
    let mut i: usize = 0;
    while i < fs.len()
        invariant
            parts == fragments_debug_texts(fs@),
            i <= fs.len(),
            s@ == "["@ + join_texts(parts.take(i as int), ", "@),
        decreases fs.len() - i,
    {
        let t = fs[i].debug_text();
        proof {
            crate::ast::display::lemma_join_step(parts, ", "@, i as int);
        }
        if i > 0 {
            s.append(", ");
        }
        s.append(t.as_str());
        i = i + 1;
    }
    assert(parts.take(fs.len() as int) =~= parts);
    s.append("]");
    s
}

/// The tokens of `ts` from `from` up to `to`, between brackets and separated by commas.
pub(crate) fn window_list(ts: &[Token], from: usize, to: usize) -> (res: String)
    requires
        from <= to <= ts@.len(),
    ensures
        res@ == list_text(tokens_debug_texts(ts@.subrange(from as int, to as int))),
{
    let ghost parts = tokens_debug_texts(ts@.subrange(from as int, to as int));
    let mut s = String::from_str("[");
    let mut i: usize = from;
    while i < to
        invariant
            parts == tokens_debug_texts(ts@.subrange(from as int, to as int)),
            from <= i <= to <= ts@.len(),
            s@ == "["@ + join_texts(parts.take(i - from), ", "@),
        decreases to - i,
    {
        let t = ts[i].debug_text();
        proof {
            crate::ast::display::lemma_join_step(parts, ", "@, i - from);
        }
        if i > from {
            s.append(", ");
        }
        s.append(t.as_str());
        i = i + 1;
    }
    assert(parts.take(to - from) =~= parts);
    s.append("]");
    s
}

impl Token {
    /// The token as `Debug` writes it: the name of its variant, followed by its contents in
    /// brackets where it has any; spans are left out.
    pub fn debug_text(&self) -> (res: String)
        ensures
            res@ == token_debug_text(*self),
        decreases self,
    {
        match self {
            Token::Unknown(text, _, e) => {
                let mut inner = debug_quoted(text.as_str());
                inner.append(", ");
                let et = e.debug_text();
                inner.append(et.as_str());
                tuple("Unknown", inner)
            },
            Token::Comment(text, _, _) => quoted_tuple("Comment", text),
            Token::Identifier(text, _) => quoted_tuple("Identifier", text),
            Token::Boolean(b, _) => tuple(
                "Boolean",
                if *b {
                    String::from_str("true")
                } else {
                    String::from_str("false")
                },
            ),
            Token::Float(text, _) => quoted_tuple("Float", text),
            Token::Integer(text, _) => quoted_tuple("Integer", text),
            Token::Interpolation(ts, _) => tuple("Interpolation", tokens_list(ts)),
            Token::Path(text, _) => quoted_tuple("Path", text),
            Token::PathTemplate(text, _) => quoted_tuple("PathTemplate", text),
            Token::String(fs, _) => tuple("String", fragments_list(fs)),
            Token::Uri(text, _) => quoted_tuple("Uri", text),
            _ => String::from_str(self.kind().name()),
        }
    }
}

impl StringFragment {
    /// The fragment as `Debug` writes it, without its span.
    pub fn debug_text(&self) -> (res: String)
        ensures
            res@ == fragment_debug_text(*self),
        decreases self,
    {
        match self {
            StringFragment::Literal(text, _) => quoted_tuple("Literal", text),
            StringFragment::Interpolation(ts, _) => tuple("Interpolation", tokens_list(ts)),
        }
    }
}

} // verus!
