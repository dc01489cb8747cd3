//! The grammar of Nix expressions over a token stream, as mathematical functions.
//!
//! Each function takes the token sequence and a position, and gives either the position
//! after what it consumed together with a partial value, or the errors with which it
//! failed. The executable parsers in `expr` compute exactly these functions.

use vstd::prelude::*;

use crate::ast::tokens::{CommentV, IdentV, LiteralV};
use crate::ast::{
    AttrPathV, AttrSegmentV, BinaryOp, BindV, ExprV, FormalV, FragmentV, UnaryOp, attr_path_span,
};
use crate::ast::display::{binary_symbol, unary_symbol};
use crate::error::ErrorView;
use crate::lexer::tokens::{StringFragment as LexFragment, Token, TokenKind};
use crate::parser::partial::PartialV;
use crate::span::Span;

verus! {

/// The result of a parser: the position after the consumed tokens and the value, or the
/// errors with which it failed.
pub type Res<V> = Result<(int, V), Seq<ErrorView>>;

/// A partial expression.
pub type PExpr = PartialV<ExprV>;

/// The levels of binary operators, from the loosest to the tightest.
#[derive(Clone, Copy, Debug, PartialEq, Eq, Structural)]
pub enum Level {
    Imply,
    And,
    Or,
    Equality,
    Compare,
    Update,
    Sum,
    Product,
    Concat,
}

/// How the operators of a level group.
pub enum Assoc {
    /// `a op b op c` is `(a op b) op c`.
    Left,
    /// At most one operator: `a op b`.
    Single,
    /// All operands are collected and folded from the right.
    Right,
}

/// How the operators of `lv` group.
pub open spec fn level_assoc(lv: Level) -> Assoc {
    match lv {
        Level::Equality | Level::Compare => Assoc::Single,
        Level::Update | Level::Concat => Assoc::Right,
        _ => Assoc::Left,
    }
}

/// The next tighter level, if any (after `Concat` come unary operators).
pub open spec fn next_level(lv: Level) -> Option<Level> {
    match lv {
        Level::Imply => Some(Level::And),
        Level::And => Some(Level::Or),
        Level::Or => Some(Level::Equality),
        Level::Equality => Some(Level::Compare),
        Level::Compare => Some(Level::Update),
        Level::Update => Some(Level::Sum),
        Level::Sum => Some(Level::Product),
        Level::Product => Some(Level::Concat),
        Level::Concat => None,
    }
}

/// The binary operator that a token of kind `k` stands for at level `lv`, if any.
pub open spec fn level_op(lv: Level, k: TokenKind) -> Option<BinaryOp> {
    match (lv, k) {
        (Level::Imply, TokenKind::Imply) => Some(BinaryOp::Impl),
        (Level::And, TokenKind::LogicalAnd) => Some(BinaryOp::And),
        (Level::Or, TokenKind::LogicalOr) => Some(BinaryOp::Or),
        (Level::Equality, TokenKind::IsEq) => Some(BinaryOp::Eq),
        (Level::Equality, TokenKind::NotEq) => Some(BinaryOp::NotEq),
        (Level::Compare, TokenKind::LessThanEq) => Some(BinaryOp::LessThanEq),
        (Level::Compare, TokenKind::LessThan) => Some(BinaryOp::LessThan),
        (Level::Compare, TokenKind::GreaterThanEq) => Some(BinaryOp::GreaterThanEq),
        (Level::Compare, TokenKind::GreaterThan) => Some(BinaryOp::GreaterThan),
        (Level::Update, TokenKind::Update) => Some(BinaryOp::Update),
        (Level::Sum, TokenKind::Add) => Some(BinaryOp::Add),
        (Level::Sum, TokenKind::Sub) => Some(BinaryOp::Sub),
        (Level::Product, TokenKind::Mul) => Some(BinaryOp::Mul),
        (Level::Product, TokenKind::Div) => Some(BinaryOp::Div),
        (Level::Concat, TokenKind::Concat) => Some(BinaryOp::Concat),
        _ => None,
    }
}

/// What an operator token denotes: the binary operator whose symbol its description
/// shows. The description of `>=` shows only `>`, so that token denotes `>=` by name.
pub open spec fn denotes(k: TokenKind, op: BinaryOp) -> bool {
    if k == TokenKind::GreaterThanEq {
        op == BinaryOp::GreaterThanEq
    } else {
        k.spec_text() == "operator `"@ + binary_symbol(op) + "`"@
    }
}

/// An operator token read at a level of precedence gives the binary operator that the
/// token denotes, and each binary operator token but `?` is read at some level.
pub proof fn law_operator_token_gives_its_operator(lv: Level, k: TokenKind)
    ensures
        level_op(lv, k) matches Some(op) ==> denotes(k, op),
        (k == TokenKind::Imply || k == TokenKind::LogicalAnd || k == TokenKind::LogicalOr || k
            == TokenKind::IsEq || k == TokenKind::NotEq || k == TokenKind::LessThan || k
            == TokenKind::LessThanEq || k == TokenKind::GreaterThan || k == TokenKind::GreaterThanEq
            || k == TokenKind::Update || k == TokenKind::Add || k == TokenKind::Sub || k
            == TokenKind::Mul || k == TokenKind::Div || k == TokenKind::Concat) ==> exists|l: Level|
            level_op(l, k) is Some,
{
    reveal(TokenKind::spec_text);
    reveal_strlit("operator `");
    reveal_strlit("`");
    match (lv, k) {
        (Level::Imply, TokenKind::Imply) => {
            reveal_strlit("operator `->`");
            reveal_strlit("->");
            assert(k.spec_text() =~= "operator `"@ + binary_symbol(BinaryOp::Impl) + "`"@);
        },
        (Level::And, TokenKind::LogicalAnd) => {
            reveal_strlit("operator `&&`");
            reveal_strlit("&&");
            assert(k.spec_text() =~= "operator `"@ + binary_symbol(BinaryOp::And) + "`"@);
        },
        (Level::Or, TokenKind::LogicalOr) => {
            reveal_strlit("operator `||`");
            reveal_strlit("||");
            assert(k.spec_text() =~= "operator `"@ + binary_symbol(BinaryOp::Or) + "`"@);
        },
        (Level::Equality, TokenKind::IsEq) => {
            reveal_strlit("operator `==`");
            reveal_strlit("==");
            assert(k.spec_text() =~= "operator `"@ + binary_symbol(BinaryOp::Eq) + "`"@);
        },
        (Level::Equality, TokenKind::NotEq) => {
            reveal_strlit("operator `!=`");
            reveal_strlit("!=");
            assert(k.spec_text() =~= "operator `"@ + binary_symbol(BinaryOp::NotEq) + "`"@);
        },
        (Level::Compare, TokenKind::LessThanEq) => {
            reveal_strlit("operator `<=`");
            reveal_strlit("<=");
            assert(k.spec_text() =~= "operator `"@ + binary_symbol(BinaryOp::LessThanEq) + "`"@);
        },
        (Level::Compare, TokenKind::LessThan) => {
            reveal_strlit("operator `<`");
            reveal_strlit("<");
            assert(k.spec_text() =~= "operator `"@ + binary_symbol(BinaryOp::LessThan) + "`"@);
        },
        (Level::Compare, TokenKind::GreaterThan) => {
            reveal_strlit("operator `>`");
            reveal_strlit(">");
            assert(k.spec_text() =~= "operator `"@ + binary_symbol(BinaryOp::GreaterThan) + "`"@);
        },
        (Level::Update, TokenKind::Update) => {
            reveal_strlit("operator `//`");
            reveal_strlit("//");
            assert(k.spec_text() =~= "operator `"@ + binary_symbol(BinaryOp::Update) + "`"@);
        },
        (Level::Sum, TokenKind::Add) => {
            reveal_strlit("operator `+`");
            reveal_strlit("+");
            assert(k.spec_text() =~= "operator `"@ + binary_symbol(BinaryOp::Add) + "`"@);
        },
        (Level::Sum, TokenKind::Sub) => {
            reveal_strlit("operator `-`");
            reveal_strlit("-");
            assert(k.spec_text() =~= "operator `"@ + binary_symbol(BinaryOp::Sub) + "`"@);
        },
        (Level::Product, TokenKind::Mul) => {
            reveal_strlit("operator `*`");
            reveal_strlit("*");
            assert(k.spec_text() =~= "operator `"@ + binary_symbol(BinaryOp::Mul) + "`"@);
        },
        (Level::Product, TokenKind::Div) => {
            reveal_strlit("operator `/`");
            reveal_strlit("/");
            assert(k.spec_text() =~= "operator `"@ + binary_symbol(BinaryOp::Div) + "`"@);
        },
        (Level::Concat, TokenKind::Concat) => {
            reveal_strlit("operator `++`");
            reveal_strlit("++");
            assert(k.spec_text() =~= "operator `"@ + binary_symbol(BinaryOp::Concat) + "`"@);
        },
        _ => {},
    }
    if k == TokenKind::Imply {
        assert(level_op(Level::Imply, k) is Some);
    } else if k == TokenKind::LogicalAnd {
        assert(level_op(Level::And, k) is Some);
    } else if k == TokenKind::LogicalOr {
        assert(level_op(Level::Or, k) is Some);
    } else if k == TokenKind::IsEq || k == TokenKind::NotEq {
        assert(level_op(Level::Equality, k) is Some);
    } else if k == TokenKind::LessThan || k == TokenKind::LessThanEq || k == TokenKind::GreaterThan
        || k == TokenKind::GreaterThanEq {
        assert(level_op(Level::Compare, k) is Some);
    } else if k == TokenKind::Update {
        assert(level_op(Level::Update, k) is Some);
    } else if k == TokenKind::Add || k == TokenKind::Sub {
        assert(level_op(Level::Sum, k) is Some);
    } else if k == TokenKind::Mul || k == TokenKind::Div {
        assert(level_op(Level::Product, k) is Some);
    } else if k == TokenKind::Concat {
        assert(level_op(Level::Concat, k) is Some);
    }
}

/// Used to order the mutually recursive grammar functions for termination.
pub open spec fn level_rank(lv: Level) -> nat {
    match lv {
        Level::Imply => 82,
        Level::And => 78,
        Level::Or => 74,
        Level::Equality => 70,
        Level::Compare => 66,
        Level::Update => 62,
        Level::Sum => 58,
        Level::Product => 54,
        Level::Concat => 50,
    }
}

// ---------------------------------------------------------------------------------------
// Tokens

/// The token at `pos` has kind `k`.
pub open spec fn kind_at(toks: Seq<Token>, pos: int, k: TokenKind) -> bool {
    0 <= pos < toks.len() && toks[pos].spec_kind() == k
}

/// The span of the token at `pos`, or the empty span at offset 0 past the end.
pub open spec fn span_at(toks: Seq<Token>, pos: int) -> Span {
    if 0 <= pos < toks.len() {
        toks[pos].spec_span()
    } else {
        Span::spec_new(0, 0)
    }
}

/// The description of the token at `pos`, or `<eof>` past the end.
pub open spec fn found_at(toks: Seq<Token>, pos: int) -> Seq<char> {
    if 0 <= pos < toks.len() {
        toks[pos].spec_description()
    } else {
        "<eof>"@
    }
}

/// The error that a token of kind `k` was expected at `pos`.
pub open spec fn expected_at(toks: Seq<Token>, pos: int, k: TokenKind) -> Seq<ErrorView> {
    seq![ErrorView::ExpectedFound(k.spec_text(), found_at(toks, pos), span_at(toks, pos))]
}

/// The span from the token at `from` to the token at `to - 1`.
pub open spec fn span_between(toks: Seq<Token>, from: int, to: int) -> Span {
    span_at(toks, from).spec_merge(span_at(toks, to - 1))
}

/// The span of the tokens from `pos` up to the start of the token at `rest`; when nothing is
/// left after them, the span of all tokens from `pos` on.
pub open spec fn consumed_span(toks: Seq<Token>, pos: int, rest: int) -> Span {
    if rest < toks.len() {
        Span::spec_new(span_at(toks, pos).lo(), span_at(toks, rest).lo())
    } else if pos < toks.len() {
        Span::spec_new(span_at(toks, pos).lo(), toks.last().spec_span().hi())
    } else {
        Span::spec_new(0, 0)
    }
}

/// The position after the comment tokens that start at `pos`.
pub open spec fn skip_comments(toks: Seq<Token>, pos: int) -> int
    decreases toks.len() - pos,
{
    if kind_at(toks, pos, TokenKind::Comment) {
        skip_comments(toks, pos + 1)
    } else {
        pos
    }
}

/// Skipping comments never moves backwards, and stops at the end of the input at the latest.
pub proof fn lemma_skip_comments(toks: Seq<Token>, pos: int)
    ensures
        pos <= skip_comments(toks, pos),
        pos <= toks.len() ==> skip_comments(toks, pos) <= toks.len(),
        !kind_at(toks, skip_comments(toks, pos), TokenKind::Comment),
        forall|i: int| pos <= i < skip_comments(toks, pos) ==> kind_at(toks, i, TokenKind::Comment),
    decreases toks.len() - pos,
{
    if kind_at(toks, pos, TokenKind::Comment) {
        lemma_skip_comments(toks, pos + 1);
    }
}

/// The text of the comment tokens from `from` to `to`, joined by newlines.
pub open spec fn comment_text(toks: Seq<Token>, from: int, to: int) -> Seq<char>
    decreases to - from,
{
    if to <= from + 1 {
        match toks[from] {
            Token::Comment(t, _, _) => t@,
            _ => Seq::empty(),
        }
    } else {
        comment_text(toks, from, to - 1) + "\n"@ + match toks[to - 1] {
            Token::Comment(t, _, _) => t@,
            _ => Seq::empty(),
        }
    }
}

/// The doc comment made of the comment tokens from `pos` up to `skip_comments(toks, pos)`.
pub open spec fn doc_comment(toks: Seq<Token>, pos: int) -> Option<CommentV> {
    let end = skip_comments(toks, pos);
    if end <= pos {
        None
    } else {
        Some(CommentV { text: comment_text(toks, pos, end), span: span_between(toks, pos, end) })
    }
}

// ---------------------------------------------------------------------------------------
// Partial values

/// A complete partial value.
pub open spec fn pv_of<V>(v: V) -> PartialV<V> {
    PartialV { value: Some(v), errors: Seq::empty() }
}

/// A partial value is complete: it holds a value and no error.
pub open spec fn pv_complete<V>(p: PartialV<V>) -> bool {
    p.value is Some && p.errors.len() == 0
}

/// The errors of `p` followed by `more`.
pub open spec fn pv_add_errors<V>(p: PartialV<V>, more: Seq<ErrorView>) -> PartialV<V> {
    PartialV { value: p.value, errors: p.errors + more }
}

/// Pairs two partial values: the errors of `b` are kept only when `a` holds a value.
pub open spec fn pv_join<A, B>(a: PartialV<A>, b: PartialV<B>) -> PartialV<(A, B)> {
    match a.value {
        Some(x) => PartialV {
            value: match b.value {
                Some(y) => Some((x, y)),
                None => None,
            },
            errors: a.errors + b.errors,
        },
        None => PartialV { value: None, errors: a.errors },
    }
}

/// The binary node `lhs op rhs`, spanning both operands.
pub open spec fn bin_node(op: BinaryOp, lhs: ExprV, rhs: ExprV) -> ExprV {
    ExprV::Binary(op, Box::new(lhs), Box::new(rhs), lhs.span().spec_merge(rhs.span()))
}

/// Combines an accumulated left operand with a right operand.
pub open spec fn fold_bin(acc: PExpr, rhs: PExpr, op: BinaryOp) -> PExpr {
    let j = pv_join(acc, rhs);
    PartialV {
        value: match j.value {
            Some((l, r)) => Some(bin_node(op, l, r)),
            None => None,
        },
        errors: j.errors,
    }
}

/// Combines a function with its argument.
pub open spec fn fold_app(acc: PExpr, arg: PExpr) -> PExpr {
    let j = pv_join(acc, arg);
    PartialV {
        value: match j.value {
            Some((f, a)) => Some(
                ExprV::FnApp(Box::new(f), Box::new(a), f.span().spec_merge(a.span())),
            ),
            None => None,
        },
        errors: j.errors,
    }
}

/// Folds the operands `es` from the right: the last operand is the innermost left operand.
pub open spec fn right_fold(es: Seq<ExprV>, op: BinaryOp) -> ExprV
    decreases es.len(),
{
    if es.len() <= 1 {
        es[0]
    } else {
        let acc = right_fold(es.drop_first(), op);
        ExprV::Binary(op, Box::new(acc), Box::new(es[0]), es[0].span().spec_merge(acc.span()))
    }
}

/// The values that are present among `ps`, in order.
pub open spec fn present<V>(ps: Seq<PartialV<V>>) -> Seq<V>
    decreases ps.len(),
{
    if ps.len() == 0 {
        Seq::empty()
    } else {
        let init = present(ps.drop_last());
        match ps.last().value {
            Some(v) => init.push(v),
            None => init,
        }
    }
}

/// A present value appended to `vals`.
pub open spec fn push_present<V>(vals: Seq<V>, p: PartialV<V>) -> Seq<V> {
    match p.value {
        Some(v) => vals.push(v),
        None => vals,
    }
}

/// The error node that stands for a missing part, with the error that reports it.
pub open spec fn error_node(found: Seq<char>, span: Span) -> PExpr {
    PartialV {
        value: Some(ExprV::Error(span)),
        errors: seq![ErrorView::Unexpected(found, span)],
    }
}

/// The view of a literal token, if `t` is one.
pub open spec fn literal_of(t: Token) -> Option<LiteralV> {
    match t {
        Token::Null(s) => Some(LiteralV::Null(s)),
        Token::Boolean(b, s) => Some(LiteralV::Boolean(b, s)),
        Token::Float(t, s) => Some(LiteralV::Float(t@, s)),
        Token::Integer(t, s) => Some(LiteralV::Integer(t@, s)),
        Token::Path(t, s) => Some(LiteralV::Path(t@, s)),
        Token::PathTemplate(t, s) => Some(LiteralV::PathTemplate(t@, s)),
        Token::Uri(t, s) => Some(LiteralV::Uri(t@, s)),
        _ => None,
    }
}

/// A single unexpected token, reported at its position.
pub open spec fn unexpected_at(toks: Seq<Token>, pos: int) -> Seq<ErrorView> {
    seq![ErrorView::Unexpected(found_at(toks, pos), span_at(toks, pos))]
}

/// The token at `pos` is past the end or is the end-of-input token.
pub open spec fn at_end(toks: Seq<Token>, pos: int) -> bool {
    pos >= toks.len() || kind_at(toks, pos, TokenKind::Eof)
}

// ---------------------------------------------------------------------------------------
// The grammar

/// An expression, after any leading comments.
pub open spec fn expr(toks: Seq<Token>, pos: int) -> Res<PExpr>
    decreases toks, toks.len() - pos, 100nat,
{
    let p = skip_comments(toks, pos);
    if pos <= p <= toks.len() {
        function(toks, p)
    } else {
        Err(Seq::empty())
    }
}

/// A function declaration, a `with`, an `assert`, a `let ... in`, or a conditional.
pub open spec fn function(toks: Seq<Token>, pos: int) -> Res<PExpr>
    decreases toks, toks.len() - pos, 99nat,
{
    match fn_decl(toks, pos) {
        Ok(r) => Ok(r),
        Err(_) => match with_expr(toks, pos) {
            Ok(r) => Ok(r),
            Err(_) => match assert_expr(toks, pos) {
                Ok(r) => Ok(r),
                Err(_) => match let_in(toks, pos) {
                    Ok(r) => Ok(r),
                    Err(_) => if_else(toks, pos),
                },
            },
        },
    }
}

/// A function declaration: `name: body`, or one with formal arguments.
pub open spec fn fn_decl(toks: Seq<Token>, pos: int) -> Res<PExpr>
    decreases toks, toks.len() - pos, 98nat,
{
    match fn_simple(toks, pos) {
        Ok(r) => Ok(r),
        Err(_) => fn_formals(toks, pos),
    }
}

/// `name: body`.
pub open spec fn fn_simple(toks: Seq<Token>, pos: int) -> Res<PExpr>
    decreases toks, toks.len() - pos, 97nat,
{
    if !kind_at(toks, pos, TokenKind::Identifier) {
        Err(expected_at(toks, pos, TokenKind::Identifier))
    } else if !kind_at(toks, pos + 1, TokenKind::Colon) {
        Err(expected_at(toks, pos + 1, TokenKind::Colon))
    } else {
        match expr(toks, pos + 2) {
            Err(e) => Err(e),
            Ok((q, body)) => if pos + 2 <= q <= toks.len() {
                let name = match toks[pos] {
                    Token::Identifier(n, s) => IdentV { name: n@, span: s },
                    _ => IdentV { name: Seq::empty(), span: Span::spec_new(0, 0) },
                };
                Ok(
                    (
                        q,
                        PartialV {
                            value: match body.value {
                                Some(b) => Some(
                                    ExprV::FnSimple(name, Box::new(b), span_between(toks, pos, q)),
                                ),
                                None => None,
                            },
                            errors: body.errors,
                        },
                    ),
                )
            } else {
                Err(Seq::empty())
            },
        }
    }
}

/// The identifier at `pos`.
pub open spec fn ident_at(toks: Seq<Token>, pos: int) -> IdentV {
    match toks[pos] {
        Token::Identifier(n, s) => IdentV { name: n@, span: s },
        _ => IdentV { name: Seq::empty(), span: Span::spec_new(0, 0) },
    }
}

/// An item between the braces of a function's formal arguments.
pub enum FormalItemV {
    Formal(FormalV),
    Ellipsis(Span),
}

/// The formal arguments among `items`, in order.
pub open spec fn formals_of(items: Seq<FormalItemV>) -> Seq<FormalV>
    decreases items.len(),
{
    if items.len() == 0 {
        Seq::empty()
    } else {
        let init = formals_of(items.drop_last());
        match items.last() {
            FormalItemV::Formal(f) => init.push(f),
            FormalItemV::Ellipsis(_) => init,
        }
    }
}

/// The span of the last `...` among `items`, if any.
pub open spec fn ellipsis_of(items: Seq<FormalItemV>) -> Option<Span>
    decreases items.len(),
{
    if items.len() == 0 {
        None
    } else {
        match items.last() {
            FormalItemV::Ellipsis(s) => Some(s),
            FormalItemV::Formal(_) => ellipsis_of(items.drop_last()),
        }
    }
}

/// The header of a function with formal arguments: `name @` before the braces, if present.
pub open spec fn formals_start(toks: Seq<Token>, pos: int) -> (int, Option<IdentV>) {
    if kind_at(toks, pos, TokenKind::Identifier) && kind_at(toks, pos + 1, TokenKind::At) {
        (pos + 2, Some(ident_at(toks, pos)))
    } else {
        (pos, None)
    }
}

/// `@ name` after the braces, when no name came before them.
pub open spec fn formals_extra(toks: Seq<Token>, p: int, extra: Option<IdentV>) -> (
    int,
    Option<IdentV>,
) {
    if extra is None && kind_at(toks, p, TokenKind::At) && kind_at(toks, p + 1, TokenKind::Identifier) {
        (p + 2, Some(ident_at(toks, p + 1)))
    } else {
        (p, extra)
    }
}

/// `{ formals } @ name: body` or `name @ { formals }: body`, where the `@ name` is optional.
pub open spec fn fn_formals(toks: Seq<Token>, pos: int) -> Res<PExpr>
    decreases toks, toks.len() - pos, 97nat,
{
    let (start, extra) = formals_start(toks, pos);
    if !kind_at(toks, start, TokenKind::LBrace) {
        Err(expected_at(toks, start, TokenKind::LBrace))
    } else {
        match formals_list(toks, start + 1) {
            Err(e) => Err(e),
            Ok((p, items)) => if !(start + 1 <= p <= toks.len()) {
                Err(Seq::empty())
            } else if !kind_at(toks, p, TokenKind::RBrace) && !at_end(toks, p) {
                Err(expected_at(toks, p, TokenKind::RBrace))
            } else {
                // At the end of the input the list has reported the missing brace; parsing
                // goes on as though it were there.
                let close = if kind_at(toks, p, TokenKind::RBrace) {
                    p + 1
                } else {
                    p
                };
                let (p2, extra2) = formals_extra(toks, close, extra);
                if !kind_at(toks, p2, TokenKind::Colon) {
                    Err(expected_at(toks, p2, TokenKind::Colon))
                } else {
                    match expr(toks, p2 + 1) {
                        Err(e) => Err(e),
                        Ok((q, body)) => if p2 + 1 <= q <= toks.len() {
                            let j = pv_join(items, body);
                            Ok(
                                (
                                    q,
                                    PartialV {
                                        value: match j.value {
                                            Some((its, b)) => Some(
                                                ExprV::FnFormals(
                                                    formals_of(its),
                                                    ellipsis_of(its),
                                                    extra2,
                                                    Box::new(b),
                                                    span_between(toks, pos, q),
                                                ),
                                            ),
                                            None => None,
                                        },
                                        errors: j.errors,
                                    },
                                ),
                            )
                        } else {
                            Err(Seq::empty())
                        },
                    }
                }
            },
        }
    }
}

/// Formal arguments separated by commas, up to a closing brace; an item that fails is
/// skipped one token at a time with its errors recorded. When the input ends before the
/// closing brace, the items read so far are given with their own errors and an error that
/// expects the brace, in place of the recorded ones.
pub open spec fn formals_list(toks: Seq<Token>, p: int) -> Res<PartialV<Seq<FormalItemV>>>
    decreases toks, toks.len() - p, 12nat,
{
    match formal_item(toks, p) {
        Err(_) => if at_end(toks, p) {
            Ok((p, PartialV { value: Some(Seq::empty()), errors: expected_at(toks, p, TokenKind::RBrace) }))
        } else {
            Ok((p, pv_of(Seq::empty())))
        },
        Ok((q, it)) => if p <= q <= toks.len() {
            formals_rest(toks, q, push_present(Seq::empty(), it), it.errors, Seq::empty())
        } else {
            Err(Seq::empty())
        },
    }
}

/// The items `(, item)*` after those already read.
pub open spec fn formals_rest(
    toks: Seq<Token>,
    p: int,
    items: Seq<FormalItemV>,
    elem_errs: Seq<ErrorView>,
    skip_errs: Seq<ErrorView>,
) -> Res<PartialV<Seq<FormalItemV>>>
    decreases toks, toks.len() - p, 11nat,
{
    if kind_at(toks, p, TokenKind::RBrace) {
        Ok((p, PartialV { value: Some(items), errors: elem_errs + skip_errs }))
    } else {
        let next = if kind_at(toks, p, TokenKind::Comma) {
            formal_item(toks, p + 1)
        } else {
            Err(expected_at(toks, p, TokenKind::Comma))
        };
        match next {
            Ok((q, it)) => if p < q <= toks.len() {
                formals_rest(toks, q, push_present(items, it), elem_errs + it.errors, skip_errs)
            } else {
                Err(Seq::empty())
            },
            Err(e) => if at_end(toks, p) || p < 0 {
                Ok(
                    (
                        p,
                        PartialV {
                            value: Some(items),
                            errors: elem_errs + expected_at(toks, p, TokenKind::RBrace),
                        },
                    ),
                )
            } else {
                formals_rest(toks, p + 1, items, elem_errs, skip_errs + e)
            },
        }
    }
}

/// A formal argument `name`, `name ? default`, or `...`.
pub open spec fn formal_item(toks: Seq<Token>, p: int) -> Res<PartialV<FormalItemV>>
    decreases toks, toks.len() - p, 10nat,
{
    if kind_at(toks, p, TokenKind::Ellipsis) {
        Ok((p + 1, pv_of(FormalItemV::Ellipsis(toks[p].spec_span()))))
    } else if !kind_at(toks, p, TokenKind::Identifier) {
        Err(expected_at(toks, p, TokenKind::Identifier))
    } else if kind_at(toks, p + 1, TokenKind::Question) {
        match expr(toks, p + 2) {
            Err(e) => Err(e),
            Ok((q, d)) => if p + 2 <= q <= toks.len() {
                Ok(
                    (
                        q,
                        PartialV {
                            value: match d.value {
                                Some(dv) => Some(
                                    FormalItemV::Formal(
                                        FormalV {
                                            name: ident_at(toks, p),
                                            default: Some(Box::new(dv)),
                                            span: span_between(toks, p, q),
                                        },
                                    ),
                                ),
                                None => None,
                            },
                            errors: d.errors,
                        },
                    ),
                )
            } else {
                Err(Seq::empty())
            },
        }
    } else {
        Ok(
            (
                p + 1,
                pv_of(
                    FormalItemV::Formal(
                        FormalV { name: ident_at(toks, p), default: None, span: toks[p].spec_span() },
                    ),
                ),
            ),
        )
    }
}

/// `with scope; body`.
pub open spec fn with_expr(toks: Seq<Token>, pos: int) -> Res<PExpr>
    decreases toks, toks.len() - pos, 98nat,
{
    if !kind_at(toks, pos, TokenKind::With) {
        Err(expected_at(toks, pos, TokenKind::With))
    } else {
        match stmt_parts(toks, pos + 1) {
            Err(e) => Err(e),
            Ok((q, j)) => Ok(
                (
                    q,
                    PartialV {
                        value: match j.value {
                            Some((w, b)) => Some(
                                ExprV::With(Box::new(w), Box::new(b), span_between(toks, pos, q)),
                            ),
                            None => None,
                        },
                        errors: j.errors,
                    },
                ),
            ),
        }
    }
}

/// `assert cond; body`.
pub open spec fn assert_expr(toks: Seq<Token>, pos: int) -> Res<PExpr>
    decreases toks, toks.len() - pos, 98nat,
{
    if !kind_at(toks, pos, TokenKind::Assert) {
        Err(expected_at(toks, pos, TokenKind::Assert))
    } else {
        match stmt_parts(toks, pos + 1) {
            Err(e) => Err(e),
            Ok((q, j)) => Ok(
                (
                    q,
                    PartialV {
                        value: match j.value {
                            Some((c, b)) => Some(
                                ExprV::Assert(Box::new(c), Box::new(b), span_between(toks, pos, q)),
                            ),
                            None => None,
                        },
                        errors: j.errors,
                    },
                ),
            ),
        }
    }
}

/// `head; body` after a `with` or an `assert`; a missing `;` is reported and parsing goes on.
pub open spec fn stmt_parts(toks: Seq<Token>, pos: int) -> Res<PartialV<(ExprV, ExprV)>>
    decreases toks, toks.len() - pos, 101nat,
{
    match expr(toks, pos) {
        Err(e) => Err(e),
        Ok((p, head)) => if pos <= p <= toks.len() {
            let (p2, head2) = terminated_by(toks, p, head, TokenKind::Semi);
            match expr(toks, p2) {
                Err(e) => Err(e),
                Ok((q, body)) => if p2 <= q <= toks.len() {
                    Ok((q, pv_join(head2, body)))
                } else {
                    Err(Seq::empty())
                },
            }
        } else {
            Err(Seq::empty())
        },
    }
}

/// Expects a terminator of kind `k` at `p`: it is consumed when present; when it is missing,
/// the error is added and nothing is consumed.
pub open spec fn terminated_by<V>(toks: Seq<Token>, p: int, v: PartialV<V>, k: TokenKind) -> (
    int,
    PartialV<V>,
) {
    if kind_at(toks, p, k) {
        (p + 1, v)
    } else {
        (p, pv_add_errors(v, expected_at(toks, p, k)))
    }
}

/// A present terminator is consumed and leaves the value unchanged; a missing one is
/// reported with an error that expects it, after the errors already there, the value is
/// kept and nothing is consumed.
pub proof fn law_terminator_missing_is_reported<V>(
    toks: Seq<Token>,
    p: int,
    v: PartialV<V>,
    k: TokenKind,
)
    ensures
        kind_at(toks, p, k) ==> terminated_by(toks, p, v, k) == (p + 1, v),
        !kind_at(toks, p, k) ==> terminated_by(toks, p, v, k) == (
            p,
            PartialV { value: v.value, errors: v.errors + expected_at(toks, p, k) },
        ),
{
}

/// `let binds in body`.
pub open spec fn let_in(toks: Seq<Token>, pos: int) -> Res<PExpr>
    decreases toks, toks.len() - pos, 98nat,
{
    if !kind_at(toks, pos, TokenKind::Let) {
        Err(expected_at(toks, pos, TokenKind::Let))
    } else {
        let (p, binds) = binds_till(
            toks,
            pos + 1,
            TokenKind::In,
            Seq::empty(),
            Seq::empty(),
        );
        if pos + 1 <= p <= toks.len() {
            let (p2, binds2) = terminated_by(toks, p, binds, TokenKind::In);
            match expr(toks, p2) {
                Err(e) => Err(e),
                Ok((q, body)) => if p2 <= q <= toks.len() {
                    let j = pv_join(binds2, body);
                    Ok(
                        (
                            q,
                            PartialV {
                                value: match j.value {
                                    Some((bs, b)) => Some(
                                        ExprV::LetIn(bs, Box::new(b), span_between(toks, pos, q)),
                                    ),
                                    None => None,
                                },
                                errors: j.errors,
                            },
                        ),
                    )
                } else {
                    Err(Seq::empty())
                },
            }
        } else {
            Err(Seq::empty())
        }
    }
}

/// The part of a conditional after `if`, `then` or `else`: the error node when the keyword
/// `term` stands right there, an expression otherwise.
pub open spec fn if_part(toks: Seq<Token>, pos: int, term: TokenKind) -> Res<PExpr>
    decreases toks, toks.len() - pos, 101nat,
{
    if kind_at(toks, pos, term) {
        Ok((pos, error_node(term.spec_text(), span_at(toks, pos))))
    } else {
        expr(toks, pos)
    }
}

/// `if cond then body else fallback`, or else an implication.
pub open spec fn if_else(toks: Seq<Token>, pos: int) -> Res<PExpr>
    decreases toks, toks.len() - pos, 97nat,
{
    match if_then_else(toks, pos) {
        Ok(r) => Ok(r),
        Err(_) => binary(toks, pos, Level::Imply),
    }
}

/// `if cond then body else fallback`; a missing `then` or `else` is reported and parsing
/// goes on.
pub open spec fn if_then_else(toks: Seq<Token>, pos: int) -> Res<PExpr>
    decreases toks, toks.len() - pos, 96nat,
{
    if !kind_at(toks, pos, TokenKind::If) {
        Err(expected_at(toks, pos, TokenKind::If))
    } else {
        match if_part(toks, pos + 1, TokenKind::Then) {
            Err(e) => Err(e),
            Ok((p1, c)) => if pos + 1 <= p1 <= toks.len() {
                let (p1b, c2) = terminated_by(toks, p1, c, TokenKind::Then);
                match if_part(toks, p1b, TokenKind::Else) {
                    Err(e) => Err(e),
                    Ok((p2, b)) => if p1b <= p2 <= toks.len() {
                        let (p2b, b2) = terminated_by(toks, p2, b, TokenKind::Else);
                        match if_part(toks, p2b, TokenKind::Eof) {
                            Err(e) => Err(e),
                            Ok((p3, f)) => if p2b <= p3 <= toks.len() {
                                let j = pv_join(c2, pv_join(b2, f));
                                Ok(
                                    (
                                        p3,
                                        PartialV {
                                            value: match j.value {
                                                Some((cv, (bv, fv))) => Some(
                                                    ExprV::If(
                                                        Box::new(cv),
                                                        Box::new(bv),
                                                        Box::new(fv),
                                                        consumed_span(toks, pos, p3),
                                                    ),
                                                ),
                                                None => None,
                                            },
                                            errors: j.errors,
                                        },
                                    ),
                                )
                            } else {
                                Err(Seq::empty())
                            },
                        }
                    } else {
                        Err(Seq::empty())
                    },
                }
            } else {
                Err(Seq::empty())
            },
        }
    }
}

/// The operands of the next tighter level than `lv`.
pub open spec fn lower(toks: Seq<Token>, pos: int, lv: Level) -> Res<PExpr>
    decreases toks, toks.len() - pos, level_rank(lv),
{
    match next_level(lv) {
        Some(n) => binary(toks, pos, n),
        None => unary(toks, pos),
    }
}

/// The operators of level `lv` and everything that binds tighter.
pub open spec fn binary(toks: Seq<Token>, pos: int, lv: Level) -> Res<PExpr>
    decreases toks, toks.len() - pos, level_rank(lv) + 3,
{
    match lower(toks, pos, lv) {
        Err(e) => Err(e),
        Ok((p, first)) => if pos <= p <= toks.len() {
            match level_assoc(lv) {
                Assoc::Left => left_rest(toks, p, first, lv),
                Assoc::Single => single_rest(toks, p, first, lv),
                Assoc::Right => right_rest(
                    toks,
                    p,
                    push_present(Seq::empty(), first),
                    first.errors,
                    lv,
                ),
            }
        } else {
            Err(Seq::empty())
        },
    }
}

/// The operator of level `lv` at `pos`, if any.
pub open spec fn op_at(toks: Seq<Token>, pos: int, lv: Level) -> Option<BinaryOp> {
    if 0 <= pos < toks.len() {
        level_op(lv, toks[pos].spec_kind())
    } else {
        None
    }
}

/// `(op operand)*` after the operand `acc`, grouped to the left.
pub open spec fn left_rest(toks: Seq<Token>, p: int, acc: PExpr, lv: Level) -> Res<PExpr>
    decreases toks, toks.len() - p, level_rank(lv) + 2,
{
    match op_at(toks, p, lv) {
        None => Ok((p, acc)),
        Some(op) => match lower(toks, p + 1, lv) {
            Err(_) => Ok((p, acc)),
            Ok((q, rhs)) => if p + 1 <= q <= toks.len() {
                left_rest(toks, q, fold_bin(acc, rhs, op), lv)
            } else {
                Err(Seq::empty())
            },
        },
    }
}

/// `(op operand)?` after the operand `acc`.
pub open spec fn single_rest(toks: Seq<Token>, p: int, acc: PExpr, lv: Level) -> Res<PExpr>
    decreases toks, toks.len() - p, level_rank(lv) + 2,
{
    match op_at(toks, p, lv) {
        None => Ok((p, acc)),
        Some(op) => match lower(toks, p + 1, lv) {
            Err(_) => Ok((p, acc)),
            Ok((q, rhs)) => Ok((q, fold_bin(acc, rhs, op))),
        },
    }
}

/// `(op operand)*`, collecting the operands; at the end they are folded from the right.
pub open spec fn right_rest(
    toks: Seq<Token>,
    p: int,
    vals: Seq<ExprV>,
    errs: Seq<ErrorView>,
    lv: Level,
) -> Res<PExpr>
    decreases toks, toks.len() - p, level_rank(lv) + 2,
{
    match op_at(toks, p, lv) {
        None => Ok(
            (
                p,
                PartialV {
                    value: if vals.len() > 0 {
                        Some(right_fold(vals, right_op(lv)))
                    } else {
                        None
                    },
                    errors: errs,
                },
            ),
        ),
        Some(op) => match lower(toks, p + 1, lv) {
            Err(_) => Ok(
                (
                    p,
                    PartialV {
                        value: if vals.len() > 0 {
                            Some(right_fold(vals, right_op(lv)))
                        } else {
                            None
                        },
                        errors: errs,
                    },
                ),
            ),
            Ok((q, rhs)) => if p + 1 <= q <= toks.len() {
                right_rest(toks, q, push_present(vals, rhs), errs + rhs.errors, lv)
            } else {
                Err(Seq::empty())
            },
        },
    }
}

/// The operator of a level whose operands are folded from the right.
pub open spec fn right_op(lv: Level) -> BinaryOp {
    match lv {
        Level::Update => BinaryOp::Update,
        _ => BinaryOp::Concat,
    }
}

/// The operator that joins two operands is the one that the token between them denotes:
/// where an operator of level `lv` stands at `p`, it denotes the operator read there, a
/// level grouped from the right joins its operands with that same operator, and when an
/// operand follows, the operand before it and that operand are joined by that operator.
pub proof fn law_operands_joined_by_token_operator(toks: Seq<Token>, p: int, acc: PExpr, lv: Level)
    ensures
        op_at(toks, p, lv) matches Some(op) ==> 0 <= p < toks.len() && denotes(
            toks[p].spec_kind(),
            op,
        ) && ((lv == Level::Update || lv == Level::Concat) ==> right_op(lv) == op) && (lower(
            toks,
            p + 1,
            lv,
        ) matches Ok((q, rhs)) ==> (p + 1 <= q <= toks.len() ==> single_rest(toks, p, acc, lv)
            == Ok::<(int, PExpr), Seq<ErrorView>>((q, fold_bin(acc, rhs, op))) && left_rest(
            toks,
            p,
            acc,
            lv,
        ) == left_rest(toks, q, fold_bin(acc, rhs, op), lv))),
{
    if 0 <= p < toks.len() {
        law_operator_token_gives_its_operator(lv, toks[p].spec_kind());
    }
}

/// The prefix operator at `pos`, if any, and the position after it.
pub open spec fn unary_op(toks: Seq<Token>, pos: int) -> (int, Option<UnaryOp>) {
    if kind_at(toks, pos, TokenKind::Sub) {
        (pos + 1, Some(UnaryOp::Neg))
    } else if kind_at(toks, pos, TokenKind::Not) {
        (pos + 1, Some(UnaryOp::Not))
    } else {
        (pos, None)
    }
}

/// A prefix operator is read from a token whose description shows its symbol, and it
/// consumes that one token; a `-` or `!` token is always read as a prefix operator.
pub proof fn law_prefix_token_gives_its_operator(toks: Seq<Token>, pos: int)
    ensures
        unary_op(toks, pos) matches (q, Some(o)) ==> q == pos + 1 && 0 <= pos < toks.len() && ({
            let t = toks[pos].spec_kind().spec_text();
            t == "operator `"@ + unary_symbol(o) + "`"@ || t == "unary operator `"@ + unary_symbol(o)
                + "`"@
        }),
        (kind_at(toks, pos, TokenKind::Sub) || kind_at(toks, pos, TokenKind::Not)) ==> unary_op(
            toks,
            pos,
        ).1 is Some,
{
    reveal(TokenKind::spec_text);
    reveal_strlit("operator `");
    reveal_strlit("unary operator `");
    reveal_strlit("`");
    reveal_strlit("-");
    reveal_strlit("!");
    reveal_strlit("operator `-`");
    reveal_strlit("unary operator `!`");
    if kind_at(toks, pos, TokenKind::Sub) {
        assert(TokenKind::Sub.spec_text() =~= "operator `"@ + unary_symbol(UnaryOp::Neg) + "`"@);
    } else if kind_at(toks, pos, TokenKind::Not) {
        assert(TokenKind::Not.spec_text() =~= "unary operator `"@ + unary_symbol(UnaryOp::Not)
            + "`"@);
    }
}

/// Applies the prefix operator `op`, if any, to the operand `e`.
pub open spec fn apply_unary(op: Option<UnaryOp>, span: Span, e: PExpr) -> PExpr {
    PartialV {
        value: match e.value {
            Some(v) => Some(
                match op {
                    Some(o) => ExprV::Unary(o, Box::new(v), span),
                    None => v,
                },
            ),
            None => None,
        },
        errors: e.errors,
    }
}

/// `-e`, `!e`, `e`, or else a single unexpected token as an error node.
pub open spec fn unary(toks: Seq<Token>, pos: int) -> Res<PExpr>
    decreases toks, toks.len() - pos, 40nat,
{
    let (p1, op) = unary_op(toks, pos);
    match fn_app(toks, p1) {
        Ok((q, e)) => if p1 <= q <= toks.len() {
            Ok((q, apply_unary(op, consumed_span(toks, pos, q), e)))
        } else {
            Err(Seq::empty())
        },
        Err(_) => error_token(toks, pos),
    }
}

/// A single token taken as an error node; fails at the end of the input.
pub open spec fn error_token(toks: Seq<Token>, pos: int) -> Res<PExpr> {
    if 0 <= pos < toks.len() {
        let span = toks[pos].spec_span();
        let errs = seq![ErrorView::Unexpected(toks[pos].spec_description(), span)];
        if toks[pos].spec_is_eof() {
            Err(errs)
        } else {
            Ok((pos + 1, PartialV { value: Some(ExprV::Error(span)), errors: errs }))
        }
    } else {
        Err(unexpected_at(toks, pos))
    }
}

/// A function applied to arguments: `f a b`.
pub open spec fn fn_app(toks: Seq<Token>, pos: int) -> Res<PExpr>
    decreases toks, toks.len() - pos, 30nat,
{
    match project(toks, pos) {
        Err(e) => Err(e),
        Ok((p, first)) => if pos <= p <= toks.len() {
            fn_app_rest(toks, p, first)
        } else {
            Err(Seq::empty())
        },
    }
}

/// The arguments after the function `acc`.
pub open spec fn fn_app_rest(toks: Seq<Token>, p: int, acc: PExpr) -> Res<PExpr>
    decreases toks, toks.len() - p, 25nat,
{
    match project(toks, p) {
        Err(_) => Ok((p, acc)),
        Ok((q, arg)) => if p < q <= toks.len() {
            fn_app_rest(toks, q, fold_app(acc, arg))
        } else {
            Err(Seq::empty())
        },
    }
}

/// An atom, optionally followed by `.attr.path`.
pub open spec fn project(toks: Seq<Token>, pos: int) -> Res<PExpr>
    decreases toks, toks.len() - pos, 20nat,
{
    match atomic(toks, pos) {
        Err(e) => Err(e),
        Ok((p, base)) => if pos <= p <= toks.len() {
            if kind_at(toks, p, TokenKind::Dot) {
                match attr_path(toks, p + 1) {
                    Ok((q, path)) => if pv_complete(path) && p + 1 <= q <= toks.len() {
                        let ap = path.value->0;
                        Ok(
                            (
                                q,
                                PartialV {
                                    value: match base.value {
                                        Some(b) => Some(
                                            ExprV::Proj(
                                                Box::new(b),
                                                ap,
                                                None,
                                                b.span().spec_merge(ap.span),
                                            ),
                                        ),
                                        None => None,
                                    },
                                    errors: base.errors,
                                },
                            ),
                        )
                    } else {
                        Ok((p, base))
                    },
                    Err(_) => Ok((p, base)),
                }
            } else {
                Ok((p, base))
            }
        } else {
            Err(Seq::empty())
        },
    }
}

/// An attribute path: segments separated by dots.
pub open spec fn attr_path(toks: Seq<Token>, pos: int) -> Res<PartialV<AttrPathV>>
    decreases toks, toks.len() - pos, 6nat,
{
    match segment(toks, pos) {
        Err(e) => Err(e),
        Ok((p, first)) => if pos <= p <= toks.len() {
            attr_path_rest(toks, p, push_present(Seq::empty(), first), first.errors)
        } else {
            Err(Seq::empty())
        },
    }
}

/// The segments `(. segment)*` after those already read.
pub open spec fn attr_path_rest(
    toks: Seq<Token>,
    p: int,
    segs: Seq<AttrSegmentV>,
    errs: Seq<ErrorView>,
) -> Res<PartialV<AttrPathV>>
    decreases toks, toks.len() - p, 5nat,
{
    let done = Ok(
        (
            p,
            PartialV {
                value: Some(AttrPathV { segments: segs, span: attr_path_span(segs) }),
                errors: errs,
            },
        ),
    );
    if kind_at(toks, p, TokenKind::Dot) {
        match segment(toks, p + 1) {
            Err(_) => done,
            Ok((q, s)) => if p + 1 <= q <= toks.len() {
                attr_path_rest(toks, q, push_present(segs, s), errs + s.errors)
            } else {
                Err(Seq::empty())
            },
        }
    } else {
        done
    }
}

/// A segment of an attribute path: an identifier, a string or an interpolation.
pub open spec fn segment(toks: Seq<Token>, pos: int) -> Res<PartialV<AttrSegmentV>>
    decreases toks, toks.len() - pos, 4nat,
{
    if 0 <= pos < toks.len() {
        match toks[pos] {
            Token::Identifier(n, s) => Ok(
                (pos + 1, pv_of(AttrSegmentV::Ident(IdentV { name: n@, span: s }))),
            ),
            Token::String(frags, s) => {
                proof {
                    assert(decreases_to!(toks => toks[pos]));
                }
                let (fs, errs) = string_parts(frags@, 0);
                Ok((pos + 1, PartialV { value: Some(AttrSegmentV::String(fs, s)), errors: errs }))
            },
            Token::Interpolation(inner, s) => {
                proof {
                    assert(decreases_to!(toks => toks[pos]));
                }
                let e = nested(inner@, s);
                Ok(
                    (
                        pos + 1,
                        PartialV {
                            value: Some(AttrSegmentV::Interpolation(Box::new(e.value->0), s)),
                            errors: e.errors,
                        },
                    ),
                )
            },
            _ => Err(expected_at(toks, pos, TokenKind::Identifier)),
        }
    } else {
        Err(expected_at(toks, pos, TokenKind::Identifier))
    }
}

/// The contents of an interpolation `${...}`: an expression that stands alone up to the end
/// of the inner tokens (or an end-of-input token). When the expression fails, an error node
/// spanning the interpolation stands in its place.
pub open spec fn nested(inner: Seq<Token>, span: Span) -> PExpr
    decreases inner, inner.len() + 1, 0nat,
{
    match expr(inner, 0) {
        Ok((q, e)) => if 0 <= q <= inner.len() {
            finish_nested(inner, q, e, span)
        } else {
            error_node_with(Seq::empty(), span)
        },
        Err(errs) => error_node_with(errs, span),
    }
}

/// The value of an interpolation whose expression ended at `q`: tokens left before the end
/// are reported.
pub open spec fn finish_nested(inner: Seq<Token>, q: int, e: PExpr, span: Span) -> PExpr {
    PartialV {
        value: match e.value {
            Some(v) => Some(v),
            None => Some(ExprV::Error(span)),
        },
        errors: if at_end(inner, q) {
            e.errors
        } else {
            e.errors + unexpected_at(inner, q)
        },
    }
}

/// An error node with the given errors.
pub open spec fn error_node_with(errs: Seq<ErrorView>, span: Span) -> PExpr {
    PartialV { value: Some(ExprV::Error(span)), errors: errs }
}

/// The fragments of a string from the `i`-th on, with the errors of their interpolations.
pub open spec fn string_parts(frags: Seq<LexFragment>, i: int) -> (Seq<FragmentV>, Seq<ErrorView>)
    decreases frags, frags.len() - i, 0nat,
{
    if i < 0 || i >= frags.len() {
        (Seq::empty(), Seq::empty())
    } else {
        let (rest, rest_errs) = string_parts(frags, i + 1);
        match frags[i] {
            LexFragment::Literal(t, s) => (seq![FragmentV::Literal(t@, s)] + rest, rest_errs),
            LexFragment::Interpolation(inner, s) => {
                proof {
                    assert(decreases_to!(frags => frags[i]));
                }
                let e = nested(inner@, s);
                (
                    seq![FragmentV::Interpolation(Box::new(e.value->0), s)] + rest,
                    e.errors + rest_errs,
                )
            },
        }
    }
}

/// An atom: an identifier, a parenthesized expression, a set, a list, a string, an
/// interpolation, a literal, a recursive set, or a `let` set.
pub open spec fn atomic(toks: Seq<Token>, pos: int) -> Res<PExpr>
    decreases toks, toks.len() - pos, 15nat,
{
    if pos < 0 || pos >= toks.len() {
        Err(expected_at(toks, pos, TokenKind::Let))
    } else {
        match toks[pos] {
            Token::Identifier(n, s) => Ok((pos + 1, pv_of(ExprV::Ident(IdentV { name: n@, span: s })))),
            Token::LParen(_) => match paren(toks, pos) {
                Ok(r) => Ok(r),
                Err(_) => Err(expected_at(toks, pos, TokenKind::Let)),
            },
            Token::LBrace(_) => delimited_set(toks, pos, pos + 1, Delim::Plain),
            Token::LBracket(_) => list(toks, pos),
            Token::String(frags, s) => {
                proof {
                    assert(decreases_to!(toks => toks[pos]));
                }
                let (fs, errs) = string_parts(frags@, 0);
                Ok((pos + 1, PartialV { value: Some(ExprV::String(fs, s)), errors: errs }))
            },
            Token::Interpolation(inner, s) => {
                proof {
                    assert(decreases_to!(toks => toks[pos]));
                }
                let e = nested(inner@, s);
                Ok(
                    (
                        pos + 1,
                        PartialV {
                            value: Some(ExprV::Interpolation(Box::new(e.value->0), s)),
                            errors: e.errors,
                        },
                    ),
                )
            },
            Token::Rec(_) => if kind_at(toks, pos + 1, TokenKind::LBrace) {
                delimited_set(toks, pos, pos + 2, Delim::Rec)
            } else {
                Err(expected_at(toks, pos, TokenKind::Let))
            },
            Token::Let(_) => if kind_at(toks, pos + 1, TokenKind::LBrace) {
                delimited_set(toks, pos, pos + 2, Delim::Let)
            } else {
                Err(expected_at(toks, pos + 1, TokenKind::LBrace))
            },
            _ => match literal_of(toks[pos]) {
                Some(l) => Ok((pos + 1, pv_of(ExprV::Literal(l)))),
                None => Err(expected_at(toks, pos, TokenKind::Let)),
            },
        }
    }
}

/// `( expr )`; a missing `)` is reported and parsing goes on.
pub open spec fn paren(toks: Seq<Token>, pos: int) -> Res<PExpr>
    decreases toks, toks.len() - pos, 10nat,
{
    if !kind_at(toks, pos, TokenKind::LParen) {
        Err(expected_at(toks, pos, TokenKind::LParen))
    } else {
    match expr(toks, pos + 1) {
        Err(e) => Err(e),
        Ok((p, e)) => if pos + 1 <= p <= toks.len() {
            let (q, e2) = terminated_by(toks, p, e, TokenKind::RParen);
            Ok(
                (
                    q,
                    PartialV {
                        value: match e2.value {
                            Some(v) => Some(ExprV::Paren(Box::new(v), span_between(toks, pos, q))),
                            None => None,
                        },
                        errors: e2.errors,
                    },
                ),
            )
        } else {
            Err(Seq::empty())
        },
    }
    }
}

/// A parenthesised group is the expression after `(` followed by its closing `)`. Where the
/// token after that expression is `)`, it is consumed and the errors are the expression's;
/// where it is not, nothing more is consumed and an error that expects `)` there follows the
/// expression's errors. The value is the expression in parentheses, over the tokens read.
pub proof fn law_paren_is_closed_or_reported(toks: Seq<Token>, pos: int)
    ensures
        paren(toks, pos) matches Ok((q, v)) ==> expr(toks, pos + 1) matches Ok((p, e)) && pos + 1
            <= p <= toks.len() && (if kind_at(toks, p, TokenKind::RParen) {
            q == p + 1 && v.errors == e.errors
        } else {
            q == p && v.errors == e.errors + expected_at(toks, p, TokenKind::RParen)
        }) && v.value == match e.value {
            Some(x) => Some(ExprV::Paren(Box::new(x), span_between(toks, pos, q))),
            None => None,
        },
{
}

/// The kind of a braced set of bindings.
pub enum Delim {
    Plain,
    Rec,
    Let,
}

/// A set of bindings `{ ... }` that opened at `pos` and whose bindings start at `start`;
/// a missing `}` is reported and parsing goes on.
pub open spec fn delimited_set(toks: Seq<Token>, pos: int, start: int, d: Delim) -> Res<PExpr>
    decreases toks, toks.len() - pos, 10nat,
{
    if pos < start <= toks.len() {
        let (p, bs) = binds_till(toks, start, TokenKind::RBrace, Seq::empty(), Seq::empty());
        if start <= p <= toks.len() {
            let (q, bs2) = terminated_by(toks, p, bs, TokenKind::RBrace);
            let span = span_between(toks, pos, q);
            Ok(
                (
                    q,
                    PartialV {
                        value: match bs2.value {
                            Some(v) => Some(
                                match d {
                                    Delim::Plain => ExprV::AttrSet(v, span),
                                    Delim::Rec => ExprV::Rec(v, span),
                                    Delim::Let => ExprV::Let(v, span),
                                },
                            ),
                            None => None,
                        },
                        errors: bs2.errors,
                    },
                ),
            )
        } else {
            Err(Seq::empty())
        }
    } else {
        Err(Seq::empty())
    }
}

/// `[ elems ]`; a missing `]` is reported and parsing goes on.
pub open spec fn list(toks: Seq<Token>, pos: int) -> Res<PExpr>
    decreases toks, toks.len() - pos, 10nat,
{
    if !kind_at(toks, pos, TokenKind::LBracket) {
        Err(expected_at(toks, pos, TokenKind::LBracket))
    } else {
    let (p, es) = exprs_till(
        toks,
        pos + 1,
        TokenKind::RBracket,
        Seq::empty(),
        Seq::empty(),
        Seq::empty(),
    );
    if pos + 1 <= p <= toks.len() {
        let (q, es2) = terminated_by(toks, p, es, TokenKind::RBracket);
        Ok(
            (
                q,
                PartialV {
                    value: match es2.value {
                        Some(v) => Some(ExprV::List(v, span_between(toks, pos, q))),
                        None => None,
                    },
                    errors: es2.errors,
                },
            ),
        )
    } else {
        Err(Seq::empty())
    }
    }
}

/// A list is its elements after `[` followed by its closing `]`. Where the token after the
/// elements is `]`, it is consumed and the errors are the elements'; where it is not,
/// nothing more is consumed and an error that expects `]` there follows the elements'
/// errors.
pub proof fn law_list_is_closed_or_reported(toks: Seq<Token>, pos: int)
    ensures
        list(toks, pos) matches Ok((q, v)) ==> kind_at(toks, pos, TokenKind::LBracket) && ({
            let (p, es) = exprs_till(
                toks,
                pos + 1,
                TokenKind::RBracket,
                Seq::empty(),
                Seq::empty(),
                Seq::empty(),
            );
            pos + 1 <= p <= toks.len() && (if kind_at(toks, p, TokenKind::RBracket) {
                q == p + 1 && v.errors == es.errors
            } else {
                q == p && v.errors == es.errors + expected_at(toks, p, TokenKind::RBracket)
            }) && v.value == match es.value {
                Some(x) => Some(ExprV::List(x, span_between(toks, pos, q))),
                None => None,
            }
        }),
{
}

/// A set of bindings is its bindings followed by its closing `}`. Where the token after the
/// bindings is `}`, it is consumed and the errors are the bindings'; where it is not,
/// nothing more is consumed and an error that expects `}` there follows the bindings'
/// errors.
pub proof fn law_set_is_closed_or_reported(toks: Seq<Token>, pos: int, start: int, d: Delim)
    ensures
        delimited_set(toks, pos, start, d) matches Ok((q, v)) ==> ({
            let (p, bs) = binds_till(toks, start, TokenKind::RBrace, Seq::empty(), Seq::empty());
            start <= p <= toks.len() && (if kind_at(toks, p, TokenKind::RBrace) {
                q == p + 1 && v.errors == bs.errors
            } else {
                q == p && v.errors == bs.errors + expected_at(toks, p, TokenKind::RBrace)
            }) && (v.value is Some <==> bs.value is Some)
        }),
{
}

/// Elements until a terminator of kind `term`. An element that fails is skipped one token at
/// a time, its errors recorded; at the end of the input the elements read so far are given
/// without the recorded errors.
pub open spec fn exprs_till(
    toks: Seq<Token>,
    p: int,
    term: TokenKind,
    vals: Seq<ExprV>,
    elem_errs: Seq<ErrorView>,
    skip_errs: Seq<ErrorView>,
) -> (int, PartialV<Seq<ExprV>>)
    decreases toks, toks.len() - p, 21nat,
{
    if kind_at(toks, p, term) {
        (p, PartialV { value: Some(vals), errors: elem_errs + skip_errs })
    } else {
        match project(toks, p) {
            Ok((q, e)) => if p < q <= toks.len() {
                exprs_till(toks, q, term, push_present(vals, e), elem_errs + e.errors, skip_errs)
            } else {
                (p, PartialV { value: Some(vals), errors: elem_errs })
            },
            Err(errs) => if at_end(toks, p) || p < 0 {
                (p, PartialV { value: Some(vals), errors: elem_errs })
            } else {
                exprs_till(toks, p + 1, term, vals, elem_errs, skip_errs + errs)
            },
        }
    }
}

/// Bindings until a terminator of kind `term`, with the same recovery as `exprs_till`.
pub open spec fn binds_till(
    toks: Seq<Token>,
    p: int,
    term: TokenKind,
    vals: Seq<BindV>,
    skip_errs: Seq<ErrorView>,
) -> (int, PartialV<Seq<BindV>>)
    decreases toks, toks.len() - p, 9nat,
{
    if kind_at(toks, p, term) {
        (p, PartialV { value: Some(vals), errors: skip_errs })
    } else {
        match bind(toks, p) {
            Ok((q, b)) => if p < q <= toks.len() {
                binds_till(toks, q, term, vals.push(b), skip_errs)
            } else {
                (p, PartialV { value: Some(vals), errors: Seq::empty() })
            },
            Err((_, errs)) => if at_end(toks, p) || p < 0 {
                (p, PartialV { value: Some(vals), errors: Seq::empty() })
            } else {
                binds_till(toks, p + 1, term, vals, skip_errs + errs)
            },
        }
    }
}

/// The result of a binding parser; a failure that may not be retried by another
/// alternative carries `true`.
pub type BindRes = Result<(int, BindV), (bool, Seq<ErrorView>)>;

/// A binding: `inherit names;`, `inherit (expr) names;`, or `attr.path = expr;`, each
/// optionally after doc comments.
pub open spec fn bind(toks: Seq<Token>, pos: int) -> BindRes
    decreases toks, toks.len() - pos, 8nat,
{
    match inherit(toks, pos) {
        Ok(r) => Ok(r),
        Err((true, e)) => Err((true, e)),
        Err((false, _)) => match inherit_expr(toks, pos) {
            Ok(r) => Ok(r),
            Err((true, e)) => Err((true, e)),
            Err((false, _)) => simple(toks, pos),
        },
    }
}

/// The identifiers from `p` on.
pub open spec fn idents_from(toks: Seq<Token>, p: int) -> Seq<IdentV>
    decreases toks.len() - p,
{
    if kind_at(toks, p, TokenKind::Identifier) {
        let first = match toks[p] {
            Token::Identifier(n, s) => IdentV { name: n@, span: s },
            _ => IdentV { name: Seq::empty(), span: Span::spec_new(0, 0) },
        };
        seq![first] + idents_from(toks, p + 1)
    } else {
        Seq::empty()
    }
}

/// `inherit names;`
pub open spec fn inherit(toks: Seq<Token>, pos: int) -> BindRes
    decreases toks, toks.len() - pos, 7nat,
{
    let p = skip_comments(toks, pos);
    if !kind_at(toks, p, TokenKind::Inherit) {
        Err((false, expected_at(toks, p, TokenKind::Inherit)))
    } else {
        let names = idents_from(toks, p + 1);
        let q = p + 1 + names.len();
        if names.len() == 0 {
            Err((false, expected_at(toks, p + 1, TokenKind::Identifier)))
        } else if !kind_at(toks, q, TokenKind::Semi) {
            Err((true, expected_at(toks, q, TokenKind::Semi)))
        } else {
            Ok((q + 1, BindV::Inherit(names, span_between(toks, pos, q + 1))))
        }
    }
}

/// `inherit (expr) names;`
pub open spec fn inherit_expr(toks: Seq<Token>, pos: int) -> BindRes
    decreases toks, toks.len() - pos, 7nat,
{
    let p = skip_comments(toks, pos);
    if !kind_at(toks, p, TokenKind::Inherit) {
        Err((false, expected_at(toks, p, TokenKind::Inherit)))
    } else if !kind_at(toks, p + 1, TokenKind::LParen) {
        Err((false, expected_at(toks, p + 1, TokenKind::LParen)))
    } else {
        proof {
            lemma_skip_comments(toks, pos);
        }
        match expr(toks, p + 2) {
            Err(e) => Err((false, e)),
            Ok((q, e)) => if !pv_complete(e) {
                Err((false, e.errors))
            } else if !(p + 2 <= q <= toks.len()) {
                Err((false, Seq::empty()))
            } else if !kind_at(toks, q, TokenKind::RParen) {
                Err((true, expected_at(toks, q, TokenKind::RParen)))
            } else {
                let names = idents_from(toks, q + 1);
                let r = q + 1 + names.len();
                if names.len() == 0 {
                    Err((false, expected_at(toks, q + 1, TokenKind::Identifier)))
                } else if !kind_at(toks, r, TokenKind::Semi) {
                    Err((true, expected_at(toks, r, TokenKind::Semi)))
                } else {
                    Ok(
                        (
                            r + 1,
                            BindV::InheritExpr(
                                Box::new(e.value->0),
                                names,
                                span_between(toks, pos, r + 1),
                            ),
                        ),
                    )
                }
            },
        }
    }
}

/// `attr.path = expr;`, with the doc comments before it.
pub open spec fn simple(toks: Seq<Token>, pos: int) -> BindRes
    decreases toks, toks.len() - pos, 7nat,
{
    let p = skip_comments(toks, pos);
    if !(pos <= p <= toks.len()) {
        Err((false, Seq::empty()))
    } else {
        match attr_path(toks, p) {
            Err(e) => Err((false, e)),
            Ok((p2, path)) => if !pv_complete(path) {
                Err((false, path.errors))
            } else if !(p <= p2 <= toks.len()) {
                Err((false, Seq::empty()))
            } else if !kind_at(toks, p2, TokenKind::Eq) {
                Err((true, expected_at(toks, p2, TokenKind::Eq)))
            } else {
                match expr(toks, p2 + 1) {
                    Err(e) => Err((false, e)),
                    Ok((q, e)) => if !pv_complete(e) {
                        Err((false, e.errors))
                    } else if !(p2 + 1 <= q <= toks.len()) {
                        Err((false, Seq::empty()))
                    } else if !kind_at(toks, q, TokenKind::Semi) {
                        Err((true, expected_at(toks, q, TokenKind::Semi)))
                    } else {
                        Ok(
                            (
                                q + 1,
                                BindV::Simple(
                                    doc_comment(toks, pos),
                                    path.value->0,
                                    Box::new(e.value->0),
                                    span_between(toks, pos, q + 1),
                                ),
                            ),
                        )
                    },
                }
            },
        }
    }
}

// ---------------------------------------------------------------------------------------
// Whole inputs

/// Every token from `q` on is an end-of-input token.
pub open spec fn only_end_from(toks: Seq<Token>, q: int) -> bool {
    forall|i: int| q <= i < toks.len() ==> kind_at(toks, i, TokenKind::Eof)
}

/// A whole input read as one expression that reports no error; only end-of-input tokens
/// may follow it.
pub open spec fn parse_expr(toks: Seq<Token>) -> Result<ExprV, Seq<ErrorView>> {
    match expr(toks, 0) {
        Err(e) => Err(e),
        Ok((q, pv)) => if !pv_complete(pv) {
            Err(pv.errors)
        } else if !only_end_from(toks, q) {
            Err(unexpected_at(toks, q))
        } else {
            Ok(pv.value->0)
        },
    }
}

/// A whole input read as one expression, with the errors that it reports; only
/// end-of-input tokens may follow it.
pub open spec fn parse_expr_partial(toks: Seq<Token>) -> Result<PExpr, Seq<ErrorView>> {
    match expr(toks, 0) {
        Err(e) => Err(e),
        Ok((q, pv)) => if !only_end_from(toks, q) {
            Err(unexpected_at(toks, q))
        } else {
            Ok(pv)
        },
    }
}

/// The comment token at `i`.
pub open spec fn comment_at(toks: Seq<Token>, i: int) -> CommentV {
    CommentV {
        text: match toks[i] {
            Token::Comment(t, _, _) => t@,
            _ => Seq::empty(),
        },
        span: toks[i].spec_span(),
    }
}

/// The doc comment of a file: the last of the comments that open it.
pub open spec fn file_comment(toks: Seq<Token>) -> Option<CommentV> {
    let c = skip_comments(toks, 0);
    if c > 0 {
        Some(comment_at(toks, c - 1))
    } else {
        None
    }
}

/// A whole source file: its doc comment, if any, and one expression that reports no error;
/// only end-of-input tokens may follow it.
pub open spec fn parse_source_file(toks: Seq<Token>) -> Result<
    (Option<CommentV>, ExprV),
    Seq<ErrorView>,
> {
    let c = skip_comments(toks, 0);
    match expr(toks, c) {
        Err(e) => Err(e),
        Ok((q, pv)) => if !pv_complete(pv) {
            Err(pv.errors)
        } else if !only_end_from(toks, q) {
            Err(unexpected_at(toks, q))
        } else {
            Ok((file_comment(toks), pv.value->0))
        },
    }
}

/// A whole source file that opens with a doc comment, with the errors that its expression
/// reports; only end-of-input tokens may follow it.
pub open spec fn parse_source_file_partial(toks: Seq<Token>) -> Result<
    (CommentV, PExpr),
    Seq<ErrorView>,
> {
    let c = skip_comments(toks, 0);
    if c == 0 {
        Err(expected_at(toks, 0, TokenKind::Comment))
    } else {
        match expr(toks, c) {
            Err(e) => Err(e),
            Ok((q, pv)) => if !only_end_from(toks, q) {
                Err(unexpected_at(toks, q))
            } else {
                Ok((comment_at(toks, c - 1), pv))
            },
        }
    }
}

} // verus!
