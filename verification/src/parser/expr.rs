//! The parser of Nix expressions over a token stream.
//!
//! Every parser here computes the function of the same name in `grammar`: its contract
//! states that the view of its result equals that function's value.

use vstd::prelude::*;

use crate::ast::tokens::{Comment, Ident, Literal};
use crate::ast::{
    AttrPath, AttrSegment, BinaryOp, Bind, BindInherit, BindInheritExpr, BindSimple, Expr,
    ExprBinary, ExprFnApp, ExprFnDecl, ExprInterpolation, ExprIf, ExprLet, ExprLetIn, ExprList,
    ExprParen, ExprProj, ExprRec, ExprSet, ExprString, ExprUnary, ExprAssert, ExprWith,
    FnDeclFormals, FnDeclSimple, Formal, StringFragment as AstFragment, formals_view, UnaryOp,
    binds_view, comment_opt_view, exprs_view, fragments_view, idents_view, lemma_attr_path_view,
    lemma_segment_view, lemma_seq_views, segments_view,
};
use crate::error::{
    errors_view, lemma_errors_view_add, Error, ErrorView, Errors, ExpectedFoundError,
    UnexpectedError,
};
use crate::lexer::tokens::{
    lemma_fragment_ordered, lemma_token_ordered, StringFragment as LexFragment, Token, TokenKind,
    well_ordered,
};
use crate::parser::grammar::{self, Delim, Level};
use crate::parser::partial::{Partial, PartialV};
use crate::parser::sound;
use crate::span::Span;

verus! {

/// The result of a parser: the position after the consumed tokens and a partial value, or
/// the errors with which it failed.
pub type PResult<T> = Result<(usize, Partial<T>), Errors>;

/// The view of a parser's result.
pub open spec fn res_view<T: View>(r: PResult<T>) -> grammar::Res<PartialV<T::V>> {
    match r {
        Ok((p, v)) => Ok((p as int, v@)),
        Err(e) => Err(errors_view(e@)),
    }
}

/// A successful parse ends between `pos` and the end of the input.
pub open spec fn advances<T>(r: PResult<T>, pos: int, len: int) -> bool {
    r matches Ok((q, _)) ==> pos <= q <= len
}

/// A successful parse consumes at least one token.
pub open spec fn progresses<T>(r: PResult<T>, pos: int, len: int) -> bool {
    r matches Ok((q, _)) ==> pos < q <= len
}

// ---------------------------------------------------------------------------------------
// Tokens and errors

pub(crate) fn kind_at(toks: &[Token], pos: usize, k: TokenKind) -> (res: bool)
    ensures
        res == grammar::kind_at(toks@, pos as int, k),
        toks@.len() <= usize::MAX,
{
    let n = toks.len();
    pos < n && toks[pos].kind() == k
}

fn span_at(toks: &[Token], pos: usize) -> (res: Span)
    ensures
        res == grammar::span_at(toks@, pos as int),
{
    if pos < toks.len() {
        toks[pos].span()
    } else {
        Span::initial()
    }
}

fn found_at(toks: &[Token], pos: usize) -> (res: String)
    ensures
        res@ == grammar::found_at(toks@, pos as int),
{
    if pos < toks.len() {
        toks[pos].description()
    } else {
        String::from_str("<eof>")
    }
}

fn single_error(e: Error) -> (res: Errors)
    ensures
        errors_view(res@) == seq![e@],
        res@.len() == 1,
{
    let mut errs = Errors::new();
    errs.push(e);
    assert(errors_view(errs@) =~= seq![e@]);
    errs
}

pub(crate) fn expected_at(toks: &[Token], pos: usize, k: TokenKind) -> (res: Errors)
    ensures
        res@.len() == 1,
        errors_view(res@) == grammar::expected_at(toks@, pos as int, k),
{
    let e = Error::ExpectedFound(
        ExpectedFoundError::new(String::from_str(k.text()), found_at(toks, pos), span_at(toks, pos)),
    );
    single_error(e)
}

fn unexpected_at(toks: &[Token], pos: usize) -> (res: Errors)
    ensures
        res@.len() == 1,
        errors_view(res@) == grammar::unexpected_at(toks@, pos as int),
{
    single_error(Error::Unexpected(UnexpectedError::new(found_at(toks, pos), span_at(toks, pos))))
}

pub(crate) fn at_end(toks: &[Token], pos: usize) -> (res: bool)
    ensures
        res == grammar::at_end(toks@, pos as int),
{
    pos >= toks.len() || kind_at(toks, pos, TokenKind::Eof)
}

fn span_between(toks: &[Token], from: usize, to: usize) -> (res: Span)
    requires
        to >= 1,
    ensures
        res == grammar::span_between(toks@, from as int, to as int),
{
    span_at(toks, from).merge(span_at(toks, to - 1))
}

pub(crate) fn consumed_span(toks: &[Token], pos: usize, rest: usize) -> (res: Span)
    requires
        pos <= rest <= toks@.len(),
        well_ordered(toks@),
    ensures
        res == grammar::consumed_span(toks@, pos as int, rest as int),
{
    let n = toks.len();
    if rest < n {
        let a = toks[pos].span().start();
        let b = toks[rest].span().start();
        Span::new(a, b)
    } else if pos < n {
        let a = toks[pos].span().start();
        assert(toks@[pos as int].spec_span().lo() <= toks@[n - 1].spec_span().lo());
        let b = toks[n - 1].span().end();
        Span::new(a, b)
    } else {
        Span::initial()
    }
}

fn skip_comments(toks: &[Token], pos: usize) -> (res: usize)
    requires
        pos <= toks@.len(),
    ensures
        res == grammar::skip_comments(toks@, pos as int),
        pos <= res <= toks@.len(),
    decreases toks@.len() - pos,
{
    if kind_at(toks, pos, TokenKind::Comment) {
        skip_comments(toks, pos + 1)
    } else {
        pos
    }
}

// ---------------------------------------------------------------------------------------
// Partial values

fn pv_of<T: View>(v: T) -> (res: Partial<T>)
    ensures
        res@ == grammar::pv_of(v@),
{
    let res = Partial::new(Some(v));
    assert(errors_view(Seq::<Error>::empty()) =~= Seq::<ErrorView>::empty());
    res
}

pub fn pair_partial<A: View, B: View>(a: Partial<A>, b: Partial<B>) -> (res: Partial<(A, B)>)
    ensures
        res@ == grammar::pv_join(a@, b@),
{
    let (av, ae) = a.into_parts();
    let (bv, be) = b.into_parts();
    match av {
        Some(x) => {
            let ghost ae0 = ae@;
            let mut errs = ae;
            errs.extend(be);
            proof {
                lemma_errors_view_add(ae0, be@);
            }
            let v = match bv {
                Some(y) => Some((x, y)),
                None => None,
            };
            Partial::with_errors(v, errs)
        },
        None => Partial::with_errors(None, ae),
    }
}

fn add_errors<T: View>(p: Partial<T>, more: Errors) -> (res: Partial<T>)
    ensures
        res@ == grammar::pv_add_errors(p@, errors_view(more@)),
{
    let mut p = p;
    let ghost before = p.spec_errors();
    proof {
        lemma_errors_view_add(before, more@);
    }
    p.extend_errors(more);
    p
}

/// Expects a terminator of kind `k` at `p` after the partial value `v`: a present terminator
/// is consumed; a missing one is reported with an error that expects it, appended to the
/// errors of `v`, and parsing goes on as though it were there.
pub fn expect_terminated<T: View>(toks: &[Token], p: usize, v: Partial<T>, k: TokenKind) -> (res: (
    usize,
    Partial<T>,
))
    requires
        p <= toks@.len(),
    ensures
        (res.0 as int, res.1@) == grammar::terminated_by(toks@, p as int, v@, k),
        p <= res.0 <= toks@.len(),
{
    if kind_at(toks, p, k) {
        (p + 1, v)
    } else {
        let e = expected_at(toks, p, k);
        (p, add_errors(v, e))
    }
}

fn fold_binary(acc: Partial<Expr>, rhs: Partial<Expr>, op: BinaryOp) -> (res: Partial<Expr>)
    ensures
        res@ == grammar::fold_bin(acc@, rhs@, op),
        sound::pexpr_sound(acc@) && sound::pexpr_sound(rhs@) ==> sound::pexpr_sound(res@),
{
    let (v, e) = pair_partial(acc, rhs).into_parts();
    let v2 = match v {
        Some((l, r)) => {
            let span = l.span().merge(r.span());
            Some(Expr::Binary(ExprBinary::new(op, Box::new(l), Box::new(r), span)))
        },
        None => None,
    };
    Partial::with_errors(v2, e)
}

fn fold_application(acc: Partial<Expr>, arg: Partial<Expr>) -> (res: Partial<Expr>)
    ensures
        res@ == grammar::fold_app(acc@, arg@),
        sound::pexpr_sound(acc@) && sound::pexpr_sound(arg@) ==> sound::pexpr_sound(res@),
{
    let (v, e) = pair_partial(acc, arg).into_parts();
    let v2 = match v {
        Some((f, a)) => {
            let span = f.span().merge(a.span());
            Some(Expr::FnApp(ExprFnApp::new(Box::new(f), Box::new(a), span)))
        },
        None => None,
    };
    Partial::with_errors(v2, e)
}

fn right_fold(es: Vec<Expr>, op: BinaryOp) -> (res: Expr)
    requires
        es@.len() > 0,
    ensures
        res@ == grammar::right_fold(exprs_view(es@), op),
        sound::expr_has_error(res@) == sound::exprs_have_error(exprs_view(es@)),
{
    let ghost orig = es@;
    let ghost n = es@.len();
    let mut es = es;
    let mut acc = es.pop().unwrap();
    proof {
        assert(exprs_view(orig.subrange(n - 1, n as int)) =~= seq![acc@]);
    }
    while es.len() > 0
        invariant
            es@ == orig.subrange(0, es@.len() as int),
            es@.len() < n,
            n == orig.len(),
            acc@ == grammar::right_fold(exprs_view(orig.subrange(es@.len() as int, n as int)), op),
        decreases es@.len(),
    {
        let ghost k = es@.len() as int;
        let e = es.pop().unwrap();
        let span = e.span().merge(acc.span());
        proof {
            let s = exprs_view(orig.subrange(k - 1, n as int));
            assert(s.drop_first() =~= exprs_view(orig.subrange(k, n as int)));
            assert(s[0] == e@);
            assert(es@ =~= orig.subrange(0, k - 1));
        }
        acc = Expr::Binary(ExprBinary::new(op, Box::new(acc), Box::new(e), span));
    }
    assert(orig.subrange(0, n as int) =~= orig);
    proof {
        sound::lemma_right_fold(exprs_view(orig), op);
    }
    acc
}

fn level_op(lv: Level, k: TokenKind) -> (res: Option<BinaryOp>)
    ensures
        res == grammar::level_op(lv, k),
{
    match (lv, k) {
        (Level::Imply, TokenKind::Imply) => Some(BinaryOp::Impl),
        (Level::And, TokenKind::LogicalAnd) => Some(BinaryOp::And),
        (Level::Or, TokenKind::LogicalOr) => Some(BinaryOp::Or),
        (Level::Equality, TokenKind::IsEq) => Some(BinaryOp::Eq),
        (Level::Equality, TokenKind::NotEq) => Some(BinaryOp::NotEq),
        (Level::Compare, TokenKind::LessThanEq) => Some(BinaryOp::LessThanEq),
        (Level::Compare, TokenKind::LessThan) => Some(BinaryOp::LessThan),
        (Level::Compare, TokenKind::GreaterThanEq) => Some(BinaryOp::GreaterThanEq),
        (Level::Compare, TokenKind::GreaterThan) => Some(BinaryOp::GreaterThan),
        (Level::Update, TokenKind::Update) => Some(BinaryOp::Update),
        (Level::Sum, TokenKind::Add) => Some(BinaryOp::Add),
        (Level::Sum, TokenKind::Sub) => Some(BinaryOp::Sub),
        (Level::Product, TokenKind::Mul) => Some(BinaryOp::Mul),
        (Level::Product, TokenKind::Div) => Some(BinaryOp::Div),
        (Level::Concat, TokenKind::Concat) => Some(BinaryOp::Concat),
        _ => None,
    }
}

fn op_at(toks: &[Token], pos: usize, lv: Level) -> (res: Option<BinaryOp>)
    ensures
        res == grammar::op_at(toks@, pos as int, lv),
        res is Some ==> pos < toks@.len(),
        toks@.len() <= usize::MAX,
{
    let n = toks.len();
    if pos < n {
        level_op(lv, toks[pos].kind())
    } else {
        None
    }
}

fn right_op(lv: Level) -> (res: BinaryOp)
    ensures
        res == grammar::right_op(lv),
{
    match lv {
        Level::Update => BinaryOp::Update,
        _ => BinaryOp::Concat,
    }
}

fn push_present(vals: &mut Vec<Expr>, v: Option<Expr>)
    ensures
        exprs_view(final(vals)@) == grammar::push_present(
            exprs_view(old(vals)@),
            PartialV { value: match v { Some(e) => Some(e@), None => None }, errors: Seq::empty() },
        ),
{
    match v {
        Some(e) => {
            vals.push(e);
            assert(exprs_view(vals@) =~= exprs_view(old(vals)@).push(e@));
        },
        None => {},
    }
}

fn literal_of(t: &Token) -> (res: Option<Literal>)
    ensures
        res matches Some(l) ==> grammar::literal_of(*t) == Some(l@),
        res is None ==> grammar::literal_of(*t) is None,
{
    match t {
        Token::Null(s) => Some(Literal::Null(*s)),
        Token::Boolean(b, s) => Some(Literal::Boolean(*b, *s)),
        Token::Float(x, s) => Some(Literal::Float(x.clone(), *s)),
        Token::Integer(x, s) => Some(Literal::Integer(x.clone(), *s)),
        Token::Path(x, s) => Some(Literal::Path(x.clone(), *s)),
        Token::PathTemplate(x, s) => Some(Literal::PathTemplate(x.clone(), *s)),
        Token::Uri(x, s) => Some(Literal::Uri(x.clone(), *s)),
        _ => None,
    }
}

fn ident_at(toks: &[Token], pos: usize) -> (res: Ident)
    requires
        pos < toks@.len(),
    ensures
        res@ == (match toks@[pos as int] {
            Token::Identifier(n, s) => crate::ast::tokens::IdentV { name: n@, span: s },
            _ => crate::ast::tokens::IdentV { name: Seq::empty(), span: Span::spec_new(0, 0) },
        }),
{
    match &toks[pos] {
        Token::Identifier(n, s) => Ident::new(n.clone(), *s),
        _ => Ident::new(String::new(), Span::initial()),
    }
}

// ---------------------------------------------------------------------------------------
// The grammar

/// An expression, after any leading comments.
pub fn expr(toks: &[Token], pos: usize) -> (res: PResult<Expr>)
    requires
        pos <= toks@.len(),
        well_ordered(toks@),
    ensures
        res_view(res) == grammar::expr(toks@, pos as int),
        advances(res, pos as int, toks@.len() as int),
        sound::expr_res_sound(grammar::expr(toks@, pos as int)),
    decreases toks@, toks@.len() - pos, 100nat,
{
    let p = skip_comments(toks, pos);
    function(toks, p)
}

fn function(toks: &[Token], pos: usize) -> (res: PResult<Expr>)
    requires
        pos <= toks@.len(),
        well_ordered(toks@),
    ensures
        res_view(res) == grammar::function(toks@, pos as int),
        advances(res, pos as int, toks@.len() as int),
        sound::expr_res_sound(grammar::function(toks@, pos as int)),
    decreases toks@, toks@.len() - pos, 99nat,
{
    if let Ok(r) = fn_decl(toks, pos) {
        return Ok(r);
    }
    if let Ok(r) = with_expr(toks, pos) {
        return Ok(r);
    }
    if let Ok(r) = assert_expr(toks, pos) {
        return Ok(r);
    }
    if let Ok(r) = let_in(toks, pos) {
        return Ok(r);
    }
    if_else(toks, pos)
}

fn fn_decl(toks: &[Token], pos: usize) -> (res: PResult<Expr>)
    requires
        pos <= toks@.len(),
        well_ordered(toks@),
    ensures
        res_view(res) == grammar::fn_decl(toks@, pos as int),
        advances(res, pos as int, toks@.len() as int),
        sound::expr_res_sound(grammar::fn_decl(toks@, pos as int)),
    decreases toks@, toks@.len() - pos, 98nat,
{
    match fn_simple(toks, pos) {
        Ok(r) => Ok(r),
        Err(_) => fn_formals(toks, pos),
    }
}

fn fn_simple(toks: &[Token], pos: usize) -> (res: PResult<Expr>)
    requires
        pos <= toks@.len(),
        well_ordered(toks@),
    ensures
        res_view(res) == grammar::fn_simple(toks@, pos as int),
        advances(res, pos as int, toks@.len() as int),
        sound::expr_res_sound(grammar::fn_simple(toks@, pos as int)),
    decreases toks@, toks@.len() - pos, 97nat,
{
    if !kind_at(toks, pos, TokenKind::Identifier) {
        return Err(expected_at(toks, pos, TokenKind::Identifier));
    }
    if !kind_at(toks, pos + 1, TokenKind::Colon) {
        return Err(expected_at(toks, pos + 1, TokenKind::Colon));
    }
    let (q, body) = match expr(toks, pos + 2) {
        Ok(r) => r,
        Err(e) => return Err(e),
    };
    let name = ident_at(toks, pos);
    let span = span_between(toks, pos, q);
    let (bv, be) = body.into_parts();
    let v = match bv {
        Some(b) => Some(Expr::FnDecl(ExprFnDecl::Simple(FnDeclSimple::new(name, Box::new(b), span)))),
        None => None,
    };
    Ok((q, Partial::with_errors(v, be)))
}

/// An item between the braces of a function's formal arguments.
pub enum FormalItem {
    Formal(Formal),
    Ellipsis(Span),
}

impl View for FormalItem {
    type V = grammar::FormalItemV;

    open spec fn view(&self) -> grammar::FormalItemV {
        match self {
            FormalItem::Formal(f) => grammar::FormalItemV::Formal(f@),
            FormalItem::Ellipsis(s) => grammar::FormalItemV::Ellipsis(*s),
        }
    }
}

/// A vector of formal items, viewed as the sequence of their views.
pub struct FormalItems(pub Vec<FormalItem>);

impl View for FormalItems {
    type V = Seq<grammar::FormalItemV>;

    open spec fn view(&self) -> Seq<grammar::FormalItemV> {
        self.0@.map_values(|i: FormalItem| i@)
    }
}

/// Splits the items into the formal arguments and the span of the last `...`.
fn split_formals(items: Vec<FormalItem>) -> (res: (Vec<Formal>, Option<Span>))
    ensures
        formals_view(res.0@) == grammar::formals_of(FormalItems(items)@),
        res.1 == grammar::ellipsis_of(FormalItems(items)@),
{
    let ghost all = FormalItems(items)@;
    let ghost n = items@.len();
    let mut items = items;
    let mut formals: Vec<Formal> = Vec::new();
    let mut ellipsis: Option<Span> = None;
    proof {
        assert(all.take(0) =~= Seq::<grammar::FormalItemV>::empty());
        assert(formals_view(formals@) =~= Seq::<crate::ast::FormalV>::empty());
    }
    while items.len() > 0
        invariant
            n == all.len(),
            items@.len() <= n,
            FormalItems(items)@ == all.skip(n - items@.len()),
            formals_view(formals@) == grammar::formals_of(all.take(n - items@.len())),
            ellipsis == grammar::ellipsis_of(all.take(n - items@.len())),
        decreases items@.len(),
    {
        let ghost k = n - items@.len();
        let ghost before = items@;
        let it = items.remove(0);
        proof {
            assert(items@ =~= before.drop_first());
            assert(before.map_values(|i: FormalItem| i@) == all.skip(k));
            assert forall|j: int| 0 <= j < items@.len() implies #[trigger] FormalItems(items)@[j]
                == all.skip(k + 1)[j] by {
                assert(all.skip(k)[j + 1] == before[j + 1]@);
            }
            assert(FormalItems(items)@ =~= all.skip(k + 1));
            assert(all.skip(k)[0] == it@);
            assert(all.take(k + 1).drop_last() =~= all.take(k));
            assert(all.take(k + 1).last() == it@);
        }
        match it {
            FormalItem::Formal(f) => {
                let ghost f0 = formals@;
                formals.push(f);
                proof {
                    assert(formals_view(formals@) =~= formals_view(f0).push(formals@.last()@));
                }
            },
            FormalItem::Ellipsis(s) => {
                ellipsis = Some(s);
            },
        }
    }
    proof {
        assert(all.take(n as int) =~= all);
    }
    (formals, ellipsis)
}

fn formals_start(toks: &[Token], pos: usize) -> (res: (usize, Option<Ident>))
    requires
        pos <= toks@.len(),
    ensures
        res.0 as int == grammar::formals_start(toks@, pos as int).0,
        crate::ast::ident_opt_view(res.1) == grammar::formals_start(toks@, pos as int).1,
        pos <= res.0 <= toks@.len(),
{
    if kind_at(toks, pos, TokenKind::Identifier) && kind_at(toks, pos + 1, TokenKind::At) {
        (pos + 2, Some(ident_at(toks, pos)))
    } else {
        (pos, None)
    }
}

fn formals_extra(toks: &[Token], p: usize, extra: Option<Ident>) -> (res: (usize, Option<Ident>))
    requires
        p <= toks@.len(),
    ensures
        res.0 as int == grammar::formals_extra(toks@, p as int, crate::ast::ident_opt_view(extra)).0,
        crate::ast::ident_opt_view(res.1) == grammar::formals_extra(toks@, p as int, crate::ast::ident_opt_view(extra)).1,
        p <= res.0 <= toks@.len(),
{
    if extra.is_none() && kind_at(toks, p, TokenKind::At) && kind_at(toks, p + 1, TokenKind::Identifier) {
        (p + 2, Some(ident_at(toks, p + 1)))
    } else {
        (p, extra)
    }
}

#[verifier::rlimit(60)]
fn fn_formals(toks: &[Token], pos: usize) -> (res: PResult<Expr>)
    requires
        pos <= toks@.len(),
        well_ordered(toks@),
    ensures
        res_view(res) == grammar::fn_formals(toks@, pos as int),
        advances(res, pos as int, toks@.len() as int),
        sound::expr_res_sound(grammar::fn_formals(toks@, pos as int)),
    decreases toks@, toks@.len() - pos, 97nat,
{
    let (start, extra) = formals_start(toks, pos);
    if !kind_at(toks, start, TokenKind::LBrace) {
        return Err(expected_at(toks, start, TokenKind::LBrace));
    }
    let (p, items) = match formals_list(toks, start + 1) {
        Ok(r) => r,
        Err(e) => return Err(e),
    };
    let close = if kind_at(toks, p, TokenKind::RBrace) {
        p + 1
    } else if at_end(toks, p) {
        p
    } else {
        return Err(expected_at(toks, p, TokenKind::RBrace));
    };
    let (p2, extra2) = formals_extra(toks, close, extra);
    if !kind_at(toks, p2, TokenKind::Colon) {
        return Err(expected_at(toks, p2, TokenKind::Colon));
    }
    let (q, body) = match expr(toks, p2 + 1) {
        Ok(r) => r,
        Err(e) => return Err(e),
    };
    let span = span_between(toks, pos, q);
    let (v, e) = pair_partial(items, body).into_parts();
    let v2 = match v {
        Some((its, b)) => {
            proof {
                sound::lemma_formals_of(its@);
            }
            let (formals, ellipsis) = split_formals(its.0);
            let x = Expr::FnDecl(
                ExprFnDecl::Formals(FnDeclFormals::new(formals, ellipsis, extra2, Box::new(b), span)),
            );
            proof {
                lemma_seq_views(x);
            }
            Some(x)
        },
        None => None,
    };
    Ok((q, Partial::with_errors(v2, e)))
}

/// Formal arguments separated by commas, up to a closing brace; an item that fails is
/// skipped one token at a time with its errors recorded. When the input ends before the
/// closing brace, the items read so far are given with their own errors and an error that
/// expects the brace.
pub fn formals_list(toks: &[Token], p: usize) -> (res: PResult<FormalItems>)
    requires
        p <= toks@.len(),
        well_ordered(toks@),
    ensures
        res_view(res) == grammar::formals_list(toks@, p as int),
        advances(res, p as int, toks@.len() as int),
        sound::items_res_sound(grammar::formals_list(toks@, p as int)),
        res matches Ok((q, v)) ==> (grammar::at_end(toks@, q as int) ==> v@.errors.len() > 0
            && v@.errors.last() == grammar::expected_at(toks@, q as int, TokenKind::RBrace)[0]),
    decreases toks@, toks@.len() - p, 12nat,
{
    match formal_item(toks, p) {
        Err(_) => {
            let items = FormalItems(Vec::new());
            proof {
                assert(items@ =~= Seq::<grammar::FormalItemV>::empty());
            }
            if at_end(toks, p) {
                Ok((p, Partial::with_errors(Some(items), expected_at(toks, p, TokenKind::RBrace))))
            } else {
                Ok((p, pv_of(items)))
            }
        },
        Ok((q, it)) => {
            let ghost itv = it@;
            let (v, e) = it.into_parts();
            let mut items: Vec<FormalItem> = Vec::new();
            if let Some(x) = v {
                items.push(x);
            }
            proof {
                assert(FormalItems(items)@ =~= grammar::push_present(Seq::empty(), itv));
                assert(errors_view(Seq::<Error>::empty()) =~= Seq::<ErrorView>::empty());
                assert(!sound::items_have_error(Seq::<grammar::FormalItemV>::empty()));
                if let Some(x) = itv.value {
                    sound::lemma_items_push(Seq::empty(), x);
                }
            }
            formals_rest(toks, q, items, e, Errors::new())
        },
    }
}

fn formals_rest(
    toks: &[Token],
    p: usize,
    items: Vec<FormalItem>,
    elem_errs: Errors,
    skip_errs: Errors,
) -> (res: PResult<FormalItems>)
    requires
        sound::reported(sound::items_have_error(FormalItems(items)@), errors_view(elem_errs@)),
        p <= toks@.len(),
        well_ordered(toks@),
    ensures
        res_view(res) == grammar::formals_rest(toks@, p as int, FormalItems(items)@, errors_view(elem_errs@), errors_view(skip_errs@)),
        advances(res, p as int, toks@.len() as int),
        sound::items_res_sound(grammar::formals_rest(toks@, p as int, FormalItems(items)@, errors_view(elem_errs@), errors_view(skip_errs@))),
        res matches Ok((q, v)) ==> (grammar::at_end(toks@, q as int) ==> v@.errors.len() > 0
            && v@.errors.last() == grammar::expected_at(toks@, q as int, TokenKind::RBrace)[0]),
    decreases toks@, toks@.len() - p, 11nat,
{
    if kind_at(toks, p, TokenKind::RBrace) {
        let ghost e0 = elem_errs@;
        let mut errs = elem_errs;
        errs.extend(skip_errs);
        proof {
            lemma_errors_view_add(e0, skip_errs@);
        }
        return Ok((p, Partial::with_errors(Some(FormalItems(items)), errs)));
    }
    let next = if kind_at(toks, p, TokenKind::Comma) {
        formal_item(toks, p + 1)
    } else {
        Err(expected_at(toks, p, TokenKind::Comma))
    };
    match next {
        Ok((q, it)) => {
            let ghost itv = it@;
            let ghost i0 = FormalItems(items)@;
            let (v, e) = it.into_parts();
            let mut items = items;
            if let Some(x) = v {
                items.push(x);
            }
            proof {
                assert(FormalItems(items)@ =~= grammar::push_present(i0, itv));
                if let Some(x) = itv.value {
                    sound::lemma_items_push(i0, x);
                }
            }
            let ghost e0 = elem_errs@;
            let mut elem_errs = elem_errs;
            elem_errs.extend(e);
            proof {
                lemma_errors_view_add(e0, e@);
            }
            formals_rest(toks, q, items, elem_errs, skip_errs)
        },
        Err(e) => {
            if at_end(toks, p) {
                let missing = expected_at(toks, p, TokenKind::RBrace);
                let ghost e0 = elem_errs@;
                let mut errs = elem_errs;
                errs.extend(missing);
                proof {
                    lemma_errors_view_add(e0, missing@);
                }
                Ok((p, Partial::with_errors(Some(FormalItems(items)), errs)))
            } else {
                let ghost s0 = skip_errs@;
                let mut skip_errs = skip_errs;
                skip_errs.extend(e);
                proof {
                    lemma_errors_view_add(s0, e@);
                }
                formals_rest(toks, p + 1, items, elem_errs, skip_errs)
            }
        },
    }
}

pub(crate) fn formal_item(toks: &[Token], p: usize) -> (res: PResult<FormalItem>)
    requires
        p <= toks@.len(),
        well_ordered(toks@),
    ensures
        res_view(res) == grammar::formal_item(toks@, p as int),
        progresses(res, p as int, toks@.len() as int),
        sound::item_res_sound(grammar::formal_item(toks@, p as int)),
    decreases toks@, toks@.len() - p, 10nat,
{
    if kind_at(toks, p, TokenKind::Ellipsis) {
        return Ok((p + 1, pv_of(FormalItem::Ellipsis(toks[p].span()))));
    }
    if !kind_at(toks, p, TokenKind::Identifier) {
        return Err(expected_at(toks, p, TokenKind::Identifier));
    }
    if kind_at(toks, p + 1, TokenKind::Question) {
        let (q, d) = match expr(toks, p + 2) {
            Ok(r) => r,
            Err(e) => return Err(e),
        };
        let span = span_between(toks, p, q);
        let (v, e) = d.into_parts();
        let v2 = match v {
            Some(dv) => Some(FormalItem::Formal(Formal::new(ident_at(toks, p), Some(Box::new(dv)), span))),
            None => None,
        };
        Ok((q, Partial::with_errors(v2, e)))
    } else {
        let f = Formal::new(ident_at(toks, p), None, toks[p].span());
        Ok((p + 1, pv_of(FormalItem::Formal(f))))
    }
}

fn with_expr(toks: &[Token], pos: usize) -> (res: PResult<Expr>)
    requires
        pos <= toks@.len(),
        well_ordered(toks@),
    ensures
        res_view(res) == grammar::with_expr(toks@, pos as int),
        advances(res, pos as int, toks@.len() as int),
        sound::expr_res_sound(grammar::with_expr(toks@, pos as int)),
    decreases toks@, toks@.len() - pos, 98nat,
{
    if !kind_at(toks, pos, TokenKind::With) {
        return Err(expected_at(toks, pos, TokenKind::With));
    }
    let (q, j) = match stmt_parts(toks, pos + 1) {
        Ok(r) => r,
        Err(e) => return Err(e),
    };
    let span = span_between(toks, pos, q);
    let (v, e) = j.into_parts();
    let v2 = match v {
        Some((w, b)) => Some(Expr::With(ExprWith::new(Box::new(w), Box::new(b), span))),
        None => None,
    };
    Ok((q, Partial::with_errors(v2, e)))
}

fn assert_expr(toks: &[Token], pos: usize) -> (res: PResult<Expr>)
    requires
        pos <= toks@.len(),
        well_ordered(toks@),
    ensures
        res_view(res) == grammar::assert_expr(toks@, pos as int),
        advances(res, pos as int, toks@.len() as int),
        sound::expr_res_sound(grammar::assert_expr(toks@, pos as int)),
    decreases toks@, toks@.len() - pos, 98nat,
{
    if !kind_at(toks, pos, TokenKind::Assert) {
        return Err(expected_at(toks, pos, TokenKind::Assert));
    }
    let (q, j) = match stmt_parts(toks, pos + 1) {
        Ok(r) => r,
        Err(e) => return Err(e),
    };
    let span = span_between(toks, pos, q);
    let (v, e) = j.into_parts();
    let v2 = match v {
        Some((c, b)) => Some(Expr::Assert(ExprAssert::new(Box::new(c), Box::new(b), span))),
        None => None,
    };
    Ok((q, Partial::with_errors(v2, e)))
}

fn stmt_parts(toks: &[Token], pos: usize) -> (res: PResult<(Expr, Expr)>)
    requires
        pos <= toks@.len(),
        well_ordered(toks@),
    ensures
        res_view(res) == grammar::stmt_parts(toks@, pos as int),
        advances(res, pos as int, toks@.len() as int),
        sound::pair_res_sound(grammar::stmt_parts(toks@, pos as int)),
    decreases toks@, toks@.len() - pos, 101nat,
{
    let (p, head) = match expr(toks, pos) {
        Ok(r) => r,
        Err(e) => return Err(e),
    };
    let (p2, head2) = expect_terminated(toks, p, head, TokenKind::Semi);
    let (q, body) = match expr(toks, p2) {
        Ok(r) => r,
        Err(e) => return Err(e),
    };
    Ok((q, pair_partial(head2, body)))
}

fn let_in(toks: &[Token], pos: usize) -> (res: PResult<Expr>)
    requires
        pos <= toks@.len(),
        well_ordered(toks@),
    ensures
        res_view(res) == grammar::let_in(toks@, pos as int),
        advances(res, pos as int, toks@.len() as int),
        sound::expr_res_sound(grammar::let_in(toks@, pos as int)),
    decreases toks@, toks@.len() - pos, 98nat,
{
    if !kind_at(toks, pos, TokenKind::Let) {
        return Err(expected_at(toks, pos, TokenKind::Let));
    }
    let (p, binds, berrs) = binds_till(toks, pos + 1, TokenKind::In, Vec::new(), Errors::new());
    proof {
        assert(binds_view(Seq::<Bind>::empty()) =~= Seq::<crate::ast::BindV>::empty());
        assert(errors_view(Seq::<Error>::empty()) =~= Seq::<ErrorView>::empty());
    }
    let (p2, bpart) = expect_terminated(toks, p, Partial::with_errors(Some(BindList(binds)), berrs), TokenKind::In);
    let (q, body) = match expr(toks, p2) {
        Ok(r) => r,
        Err(e) => return Err(e),
    };
    let span = span_between(toks, pos, q);
    let (v, e) = pair_partial(bpart, body).into_parts();
    let v2 = match v {
        Some((bs, b)) => {
            let r = Expr::LetIn(ExprLetIn::new(bs.0, Box::new(b), span));
            proof {
                lemma_seq_views(r);
            }
            Some(r)
        },
        None => None,
    };
    Ok((q, Partial::with_errors(v2, e)))
}

fn if_part(toks: &[Token], pos: usize, term: TokenKind) -> (res: PResult<Expr>)
    requires
        pos <= toks@.len(),
        well_ordered(toks@),
    ensures
        res_view(res) == grammar::if_part(toks@, pos as int, term),
        advances(res, pos as int, toks@.len() as int),
        sound::expr_res_sound(grammar::if_part(toks@, pos as int, term)),
    decreases toks@, toks@.len() - pos, 101nat,
{
    if kind_at(toks, pos, term) {
        let span = span_at(toks, pos);
        let errs = single_error(Error::Unexpected(UnexpectedError::new(String::from_str(term.text()), span)));
        Ok((pos, Partial::with_errors(Some(Expr::Error(span)), errs)))
    } else {
        expr(toks, pos)
    }
}

fn if_else(toks: &[Token], pos: usize) -> (res: PResult<Expr>)
    requires
        pos <= toks@.len(),
        well_ordered(toks@),
    ensures
        res_view(res) == grammar::if_else(toks@, pos as int),
        advances(res, pos as int, toks@.len() as int),
        sound::expr_res_sound(grammar::if_else(toks@, pos as int)),
    decreases toks@, toks@.len() - pos, 97nat,
{
    match if_then_else(toks, pos) {
        Ok(r) => Ok(r),
        Err(_) => binary(toks, pos, Level::Imply),
    }
}

fn if_then_else(toks: &[Token], pos: usize) -> (res: PResult<Expr>)
    requires
        pos <= toks@.len(),
        well_ordered(toks@),
    ensures
        res_view(res) == grammar::if_then_else(toks@, pos as int),
        advances(res, pos as int, toks@.len() as int),
        sound::expr_res_sound(grammar::if_then_else(toks@, pos as int)),
    decreases toks@, toks@.len() - pos, 96nat,
{
    if !kind_at(toks, pos, TokenKind::If) {
        return Err(expected_at(toks, pos, TokenKind::If));
    }
    let (p1, c) = match if_part(toks, pos + 1, TokenKind::Then) {
        Ok(r) => r,
        Err(e) => return Err(e),
    };
    let (p1b, c2) = expect_terminated(toks, p1, c, TokenKind::Then);
    let (p2, b) = match if_part(toks, p1b, TokenKind::Else) {
        Ok(r) => r,
        Err(e) => return Err(e),
    };
    let (p2b, b2) = expect_terminated(toks, p2, b, TokenKind::Else);
    let (p3, f) = match if_part(toks, p2b, TokenKind::Eof) {
        Ok(r) => r,
        Err(e) => return Err(e),
    };
    let span = consumed_span(toks, pos, p3);
    let (v, e) = pair_partial(c2, pair_partial(b2, f)).into_parts();
    let v2 = match v {
        Some((cv, (bv, fv))) => Some(Expr::If(ExprIf::new(Box::new(cv), Box::new(bv), Box::new(fv), span))),
        None => None,
    };
    Ok((p3, Partial::with_errors(v2, e)))
}

fn lower(toks: &[Token], pos: usize, lv: Level) -> (res: PResult<Expr>)
    requires
        pos <= toks@.len(),
        well_ordered(toks@),
    ensures
        res_view(res) == grammar::lower(toks@, pos as int, lv),
        advances(res, pos as int, toks@.len() as int),
        sound::expr_res_sound(grammar::lower(toks@, pos as int, lv)),
    decreases toks@, toks@.len() - pos, grammar::level_rank(lv),
{
    match lv {
        Level::Imply => binary(toks, pos, Level::And),
        Level::And => binary(toks, pos, Level::Or),
        Level::Or => binary(toks, pos, Level::Equality),
        Level::Equality => binary(toks, pos, Level::Compare),
        Level::Compare => binary(toks, pos, Level::Update),
        Level::Update => binary(toks, pos, Level::Sum),
        Level::Sum => binary(toks, pos, Level::Product),
        Level::Product => binary(toks, pos, Level::Concat),
        Level::Concat => unary(toks, pos),
    }
}

fn binary(toks: &[Token], pos: usize, lv: Level) -> (res: PResult<Expr>)
    requires
        pos <= toks@.len(),
        well_ordered(toks@),
    ensures
        res_view(res) == grammar::binary(toks@, pos as int, lv),
        advances(res, pos as int, toks@.len() as int),
        sound::expr_res_sound(grammar::binary(toks@, pos as int, lv)),
    decreases toks@, toks@.len() - pos, grammar::level_rank(lv) + 3,
{
    let (p, first) = match lower(toks, pos, lv) {
        Ok(r) => r,
        Err(e) => return Err(e),
    };
    match lv {
        Level::Equality | Level::Compare => single_rest(toks, p, first, lv),
        Level::Update | Level::Concat => {
            let (v, e) = first.into_parts();
            let ghost gv = v;
            let mut vals: Vec<Expr> = Vec::new();
            push_present(&mut vals, v);
            proof {
                assert(exprs_view(Seq::<Expr>::empty()) =~= Seq::<crate::ast::ExprV>::empty());
                assert(!sound::exprs_have_error(Seq::<crate::ast::ExprV>::empty()));
                if let Some(x) = gv {
                    sound::lemma_exprs_push(Seq::empty(), x@);
                }
            }
            right_rest(toks, p, vals, e, lv)
        },
        _ => left_rest(toks, p, first, lv),
    }
}

fn left_rest(toks: &[Token], p: usize, acc: Partial<Expr>, lv: Level) -> (res: PResult<Expr>)
    requires
        sound::pexpr_sound(acc@),
        p <= toks@.len(),
        well_ordered(toks@),
    ensures
        res_view(res) == grammar::left_rest(toks@, p as int, acc@, lv),
        advances(res, p as int, toks@.len() as int),
        sound::expr_res_sound(grammar::left_rest(toks@, p as int, acc@, lv)),
    decreases toks@, toks@.len() - p, grammar::level_rank(lv) + 2,
{
    match op_at(toks, p, lv) {
        None => Ok((p, acc)),
        Some(op) => match lower(toks, p + 1, lv) {
            Err(_) => Ok((p, acc)),
            Ok((q, rhs)) => left_rest(toks, q, fold_binary(acc, rhs, op), lv),
        },
    }
}

fn single_rest(toks: &[Token], p: usize, acc: Partial<Expr>, lv: Level) -> (res: PResult<Expr>)
    requires
        sound::pexpr_sound(acc@),
        p <= toks@.len(),
        well_ordered(toks@),
    ensures
        res_view(res) == grammar::single_rest(toks@, p as int, acc@, lv),
        advances(res, p as int, toks@.len() as int),
        sound::expr_res_sound(grammar::single_rest(toks@, p as int, acc@, lv)),
    decreases toks@, toks@.len() - p, grammar::level_rank(lv) + 2,
{
    match op_at(toks, p, lv) {
        None => Ok((p, acc)),
        Some(op) => match lower(toks, p + 1, lv) {
            Err(_) => Ok((p, acc)),
            Ok((q, rhs)) => Ok((q, fold_binary(acc, rhs, op))),
        },
    }
}

fn right_rest(toks: &[Token], p: usize, vals: Vec<Expr>, errs: Errors, lv: Level) -> (res: PResult<Expr>)
    requires
        vals@.len() > 0,
        sound::reported(sound::exprs_have_error(exprs_view(vals@)), errors_view(errs@)),
        p <= toks@.len(),
        well_ordered(toks@),
    ensures
        res_view(res) == grammar::right_rest(toks@, p as int, exprs_view(vals@), errors_view(errs@), lv),
        advances(res, p as int, toks@.len() as int),
        sound::expr_res_sound(grammar::right_rest(toks@, p as int, exprs_view(vals@), errors_view(errs@), lv)),
    decreases toks@, toks@.len() - p, grammar::level_rank(lv) + 2,
{
    let next = match op_at(toks, p, lv) {
        None => None,
        Some(_) => match lower(toks, p + 1, lv) {
            Err(_) => None,
            Ok(r) => Some(r),
        },
    };
    match next {
        Some((q, rhs)) => {
            let (v, e) = rhs.into_parts();
            let ghost gv = v;
            let ghost vals0 = exprs_view(vals@);
            let mut vals = vals;
            push_present(&mut vals, v);
            proof {
                if let Some(x) = gv {
                    sound::lemma_exprs_push(vals0, x@);
                }
            }
            let ghost errs0 = errs@;
            let mut errs = errs;
            errs.extend(e);
            proof {
                lemma_errors_view_add(errs0, e@);
            }
            right_rest(toks, q, vals, errs, lv)
        },
        None => {
            let v = if vals.len() > 0 {
                Some(right_fold(vals, right_op(lv)))
            } else {
                None
            };
            Ok((p, Partial::with_errors(v, errs)))
        },
    }
}

#[verifier::rlimit(60)]
fn unary(toks: &[Token], pos: usize) -> (res: PResult<Expr>)
    requires
        pos <= toks@.len(),
        well_ordered(toks@),
    ensures
        res_view(res) == grammar::unary(toks@, pos as int),
        progresses(res, pos as int, toks@.len() as int),
        sound::expr_res_sound(grammar::unary(toks@, pos as int)),
    decreases toks@, toks@.len() - pos, 40nat,
{
    let (p1, op) = unary_op(toks, pos);
    match fn_app(toks, p1) {
        Ok((q, e)) => {
            let span = consumed_span(toks, pos, q);
            Ok((q, apply_unary(op, span, e)))
        },
        Err(_) => error_token(toks, pos),
    }
}

fn unary_op(toks: &[Token], pos: usize) -> (res: (usize, Option<UnaryOp>))
    requires
        pos <= toks@.len(),
    ensures
        (res.0 as int, res.1) == grammar::unary_op(toks@, pos as int),
        pos <= res.0 <= toks@.len(),
{
    if kind_at(toks, pos, TokenKind::Sub) {
        (pos + 1, Some(UnaryOp::Neg))
    } else if kind_at(toks, pos, TokenKind::Not) {
        (pos + 1, Some(UnaryOp::Not))
    } else {
        (pos, None)
    }
}

fn apply_unary(op: Option<UnaryOp>, span: Span, e: Partial<Expr>) -> (res: Partial<Expr>)
    ensures
        res@ == grammar::apply_unary(op, span, e@),
{
    let (v, errs) = e.into_parts();
    let v2 = match v {
        Some(x) => Some(
            match op {
                Some(o) => Expr::Unary(ExprUnary::new(o, Box::new(x), span)),
                None => x,
            },
        ),
        None => None,
    };
    Partial::with_errors(v2, errs)
}

fn error_token(toks: &[Token], pos: usize) -> (res: PResult<Expr>)
    ensures
        res_view(res) == grammar::error_token(toks@, pos as int),
        progresses(res, pos as int, toks@.len() as int),
        sound::expr_res_sound(grammar::error_token(toks@, pos as int)),
{
    let n = toks.len();
    if pos < n {
        let span = toks[pos].span();
        let errs = single_error(Error::Unexpected(UnexpectedError::new(toks[pos].description(), span)));
        if toks[pos].kind() == TokenKind::Eof {
            Err(errs)
        } else {
            Ok((pos + 1, Partial::with_errors(Some(Expr::Error(span)), errs)))
        }
    } else {
        Err(unexpected_at(toks, pos))
    }
}

fn fn_app(toks: &[Token], pos: usize) -> (res: PResult<Expr>)
    requires
        pos <= toks@.len(),
        well_ordered(toks@),
    ensures
        res_view(res) == grammar::fn_app(toks@, pos as int),
        progresses(res, pos as int, toks@.len() as int),
        sound::expr_res_sound(grammar::fn_app(toks@, pos as int)),
    decreases toks@, toks@.len() - pos, 30nat,
{
    let (p, first) = match project(toks, pos) {
        Ok(r) => r,
        Err(e) => return Err(e),
    };
    fn_app_rest(toks, p, first)
}

fn fn_app_rest(toks: &[Token], p: usize, acc: Partial<Expr>) -> (res: PResult<Expr>)
    requires
        sound::pexpr_sound(acc@),
        p <= toks@.len(),
        well_ordered(toks@),
    ensures
        res_view(res) == grammar::fn_app_rest(toks@, p as int, acc@),
        advances(res, p as int, toks@.len() as int),
        sound::expr_res_sound(grammar::fn_app_rest(toks@, p as int, acc@)),
    decreases toks@, toks@.len() - p, 25nat,
{
    match project(toks, p) {
        Err(_) => Ok((p, acc)),
        Ok((q, arg)) => fn_app_rest(toks, q, fold_application(acc, arg)),
    }
}

pub(crate) fn project(toks: &[Token], pos: usize) -> (res: PResult<Expr>)
    requires
        pos <= toks@.len(),
        well_ordered(toks@),
    ensures
        res_view(res) == grammar::project(toks@, pos as int),
        progresses(res, pos as int, toks@.len() as int),
        sound::expr_res_sound(grammar::project(toks@, pos as int)),
    decreases toks@, toks@.len() - pos, 20nat,
{
    let (p, base) = match atomic(toks, pos) {
        Ok(r) => r,
        Err(e) => return Err(e),
    };
    if !kind_at(toks, p, TokenKind::Dot) {
        return Ok((p, base));
    }
    let (q, path) = match attr_path(toks, p + 1) {
        Ok(r) => r,
        Err(_) => return Ok((p, base)),
    };
    let (pv, perrs) = path.into_parts();
    if !perrs.is_empty() {
        return Ok((p, base));
    }
    let ap = match pv {
        Some(a) => a,
        None => return Ok((p, base)),
    };
    let (bv, be) = base.into_parts();
    let v = match bv {
        Some(b) => {
            let span = b.span().merge(ap.span());
            Some(Expr::Proj(ExprProj::new(Box::new(b), ap, None, span)))
        },
        None => None,
    };
    Ok((q, Partial::with_errors(v, be)))
}

fn attr_path(toks: &[Token], pos: usize) -> (res: PResult<AttrPath>)
    requires
        pos <= toks@.len(),
        well_ordered(toks@),
    ensures
        res_view(res) == grammar::attr_path(toks@, pos as int),
        progresses(res, pos as int, toks@.len() as int),
        sound::path_res_sound(grammar::attr_path(toks@, pos as int)),
    decreases toks@, toks@.len() - pos, 6nat,
{
    let (p, first) = match segment(toks, pos) {
        Ok(r) => r,
        Err(e) => return Err(e),
    };
    let ghost fv = first@;
    let (v, e) = first.into_parts();
    let mut segs: Vec<AttrSegment> = Vec::new();
    if let Some(s) = v {
        segs.push(s);
    }
    proof {
        assert(segments_view(segs@) =~= grammar::push_present(Seq::empty(), fv));
        assert(!sound::segments_have_error(Seq::<crate::ast::AttrSegmentV>::empty()));
        if let Some(x) = fv.value {
            sound::lemma_segments_push(Seq::empty(), x);
        }
    }
    attr_path_rest(toks, p, segs, e)
}

fn attr_path_rest(toks: &[Token], p: usize, segs: Vec<AttrSegment>, errs: Errors) -> (res: PResult<AttrPath>)
    requires
        sound::reported(sound::segments_have_error(segments_view(segs@)), errors_view(errs@)),
        p <= toks@.len(),
        well_ordered(toks@),
    ensures
        res_view(res) == grammar::attr_path_rest(toks@, p as int, segments_view(segs@), errors_view(errs@)),
        advances(res, p as int, toks@.len() as int),
        sound::path_res_sound(grammar::attr_path_rest(toks@, p as int, segments_view(segs@), errors_view(errs@))),
    decreases toks@, toks@.len() - p, 5nat,
{
    let next = if kind_at(toks, p, TokenKind::Dot) {
        match segment(toks, p + 1) {
            Err(_) => None,
            Ok(r) => Some(r),
        }
    } else {
        None
    };
    match next {
        Some((q, s)) => {
            let ghost sv = s@;
            let (v, e) = s.into_parts();
            let ghost segs0 = segs@;
            let mut segs = segs;
            if let Some(x) = v {
                segs.push(x);
            }
            proof {
                assert(segments_view(segs@) =~= grammar::push_present(segments_view(segs0), sv));
                if let Some(x) = sv.value {
                    sound::lemma_segments_push(segments_view(segs0), x);
                }
            }
            let ghost errs0 = errs@;
            let mut errs = errs;
            errs.extend(e);
            proof {
                lemma_errors_view_add(errs0, e@);
            }
            attr_path_rest(toks, q, segs, errs)
        },
        None => {
            let path = AttrPath::new(segs);
            proof {
                lemma_attr_path_view(path);
            }
            Ok((p, Partial::with_errors(Some(path), errs)))
        },
    }
}

#[verifier::rlimit(60)]
fn segment(toks: &[Token], pos: usize) -> (res: PResult<AttrSegment>)
    requires
        pos <= toks@.len(),
        well_ordered(toks@),
    ensures
        res_view(res) == grammar::segment(toks@, pos as int),
        progresses(res, pos as int, toks@.len() as int),
        sound::segment_res_sound(grammar::segment(toks@, pos as int)),
    decreases toks@, toks@.len() - pos, 4nat,
{
    let n = toks.len();
    if pos >= n {
        return Err(expected_at(toks, pos, TokenKind::Identifier));
    }
    proof {
        lemma_token_ordered(toks@, 0, pos as int);
    }
    match &toks[pos] {
        Token::Identifier(name, s) => Ok((pos + 1, pv_of(AttrSegment::Ident(Ident::new(name.clone(), *s))))),
        Token::String(frags, s) => {
            proof {
                assert(decreases_to!(toks@ => toks@[pos as int]));
            }
            let (fs, errs) = string_parts(frags.as_slice(), 0);
            let seg = AttrSegment::String(ExprString::new(fs, *s));
            proof {
                lemma_segment_view(seg);
            }
            Ok((pos + 1, Partial::with_errors(Some(seg), errs)))
        },
        Token::Interpolation(inner, s) => {
            proof {
                assert(decreases_to!(toks@ => toks@[pos as int]));
            }
            let (e, errs) = nested(inner.as_slice(), *s);
            let seg = AttrSegment::Interpolation(ExprInterpolation::new(Box::new(e), *s));
            Ok((pos + 1, Partial::with_errors(Some(seg), errs)))
        },
        _ => Err(expected_at(toks, pos, TokenKind::Identifier)),
    }
}

/// Parses the tokens inside an interpolation `${...}`.
#[verifier::rlimit(60)]
fn nested(inner: &[Token], span: Span) -> (res: (Expr, Errors))
    requires
        well_ordered(inner@),
    ensures
        grammar::nested(inner@, span) == (PartialV { value: Some(res.0@), errors: errors_view(res.1@) }),
        sound::pexpr_sound(grammar::nested(inner@, span)),
    decreases inner@, inner@.len() + 1, 0nat,
{
    match expr(inner, 0) {
        Ok((q, e)) => finish_nested(inner, q, e, span),
        Err(errs) => (Expr::Error(span), errs),
    }
}

fn finish_nested(inner: &[Token], q: usize, e: Partial<Expr>, span: Span) -> (res: (Expr, Errors))
    requires
        sound::pexpr_sound(e@),
        q <= inner@.len(),
    ensures
        grammar::finish_nested(inner@, q as int, e@, span) == (PartialV { value: Some(res.0@), errors: errors_view(res.1@) }),
        sound::pexpr_sound(grammar::finish_nested(inner@, q as int, e@, span)),
{
    let (v, errs) = e.into_parts();
    let x = match v {
        Some(x) => x,
        None => Expr::Error(span),
    };
    if at_end(inner, q) {
        (x, errs)
    } else {
        let more = unexpected_at(inner, q);
        let ghost errs0 = errs@;
        let mut errs = errs;
        errs.extend(more);
        proof {
            lemma_errors_view_add(errs0, more@);
        }
        (x, errs)
    }
}

/// Puts `frag` in front of `rest`.
fn prepend_fragment(frag: AstFragment, rest: Vec<AstFragment>) -> (res: Vec<AstFragment>)
    ensures
        fragments_view(res@) == seq![frag@] + fragments_view(rest@),
        sound::fragments_have_error(fragments_view(res@)) == (sound::fragment_has_error(frag@)
            || sound::fragments_have_error(fragments_view(rest@))),
{
    let ghost rv = rest@;
    let ghost fv = frag@;
    let mut rest = rest;
    rest.insert(0, frag);
    proof {
        assert(fragments_view(rest@) =~= seq![fv] + fragments_view(rv));
        sound::lemma_fragments_prepend(fv, fragments_view(rv));
    }
    rest
}

/// The fragments of a string from the `i`-th on.
fn string_parts(frags: &[LexFragment], i: usize) -> (res: (Vec<AstFragment>, Errors))
    requires
        i <= frags@.len(),
        crate::lexer::tokens::fragments_ordered_from(frags@, i as int),
    ensures
        grammar::string_parts(frags@, i as int) == (fragments_view(res.0@), errors_view(res.1@)),
        sound::reported(sound::fragments_have_error(fragments_view(res.0@)), errors_view(res.1@)),
    decreases frags@, frags@.len() - i, 0nat,
{
    let n = frags.len();
    if i >= n {
        let v: Vec<AstFragment> = Vec::new();
        proof {
            assert(fragments_view(v@) =~= Seq::<crate::ast::FragmentV>::empty());
            assert(errors_view(Seq::<Error>::empty()) =~= Seq::<ErrorView>::empty());
        }
        return (v, Errors::new());
    }
    proof {
        lemma_fragment_ordered(frags@, i as int, i as int);
        if i + 1 < n {
            lemma_fragment_ordered(frags@, i as int, i + 1);
        }
    }
    let (rest, rest_errs) = string_parts(frags, i + 1);
    match &frags[i] {
        LexFragment::Literal(t, s) => {
            let rest = prepend_fragment(AstFragment::Literal(t.clone(), *s), rest);
            (rest, rest_errs)
        },
        LexFragment::Interpolation(inner, s) => {
            proof {
                assert(decreases_to!(frags@ => frags@[i as int]));
            }
            let (e, errs) = nested(inner.as_slice(), *s);
            let frag = AstFragment::Interpolation(ExprInterpolation::new(Box::new(e), *s));
            let rest = prepend_fragment(frag, rest);
            let ghost errs0 = errs@;
            let mut errs = errs;
            errs.extend(rest_errs);
            proof {
                lemma_errors_view_add(errs0, rest_errs@);
            }
            (rest, errs)
        },
    }
}

#[verifier::rlimit(60)]
fn atomic(toks: &[Token], pos: usize) -> (res: PResult<Expr>)
    requires
        pos <= toks@.len(),
        well_ordered(toks@),
    ensures
        res_view(res) == grammar::atomic(toks@, pos as int),
        progresses(res, pos as int, toks@.len() as int),
        sound::expr_res_sound(grammar::atomic(toks@, pos as int)),
    decreases toks@, toks@.len() - pos, 15nat,
{
    let n = toks.len();
    if pos >= n {
        return Err(expected_at(toks, pos, TokenKind::Let));
    }
    proof {
        lemma_token_ordered(toks@, 0, pos as int);
    }
    match &toks[pos] {
        Token::Identifier(name, s) => Ok((pos + 1, pv_of(Expr::Ident(Ident::new(name.clone(), *s))))),
        Token::LParen(_) => match paren(toks, pos) {
            Ok(r) => Ok(r),
            Err(_) => Err(expected_at(toks, pos, TokenKind::Let)),
        },
        Token::LBrace(_) => delimited_set(toks, pos, pos + 1, Delim::Plain),
        Token::LBracket(_) => list(toks, pos),
        Token::String(frags, s) => {
            proof {
                assert(decreases_to!(toks@ => toks@[pos as int]));
            }
            let (fs, errs) = string_parts(frags.as_slice(), 0);
            let e = Expr::String(ExprString::new(fs, *s));
            proof {
                lemma_seq_views(e);
            }
            Ok((pos + 1, Partial::with_errors(Some(e), errs)))
        },
        Token::Interpolation(inner, s) => {
            proof {
                assert(decreases_to!(toks@ => toks@[pos as int]));
            }
            let (e, errs) = nested(inner.as_slice(), *s);
            let x = Expr::Interpolation(ExprInterpolation::new(Box::new(e), *s));
            Ok((pos + 1, Partial::with_errors(Some(x), errs)))
        },
        Token::Rec(_) => if kind_at(toks, pos + 1, TokenKind::LBrace) {
            delimited_set(toks, pos, pos + 2, Delim::Rec)
        } else {
            Err(expected_at(toks, pos, TokenKind::Let))
        },
        Token::Let(_) => if kind_at(toks, pos + 1, TokenKind::LBrace) {
            delimited_set(toks, pos, pos + 2, Delim::Let)
        } else {
            Err(expected_at(toks, pos + 1, TokenKind::LBrace))
        },
        t => match literal_of(t) {
            Some(l) => Ok((pos + 1, pv_of(Expr::Literal(l)))),
            None => Err(expected_at(toks, pos, TokenKind::Let)),
        },
    }
}

fn paren(toks: &[Token], pos: usize) -> (res: PResult<Expr>)
    requires
        pos <= toks@.len(),
        well_ordered(toks@),
    ensures
        res_view(res) == grammar::paren(toks@, pos as int),
        progresses(res, pos as int, toks@.len() as int),
        sound::expr_res_sound(grammar::paren(toks@, pos as int)),
    decreases toks@, toks@.len() - pos, 10nat,
{
    if !kind_at(toks, pos, TokenKind::LParen) {
        return Err(expected_at(toks, pos, TokenKind::LParen));
    }
    let (p, e) = match expr(toks, pos + 1) {
        Ok(r) => r,
        Err(e) => return Err(e),
    };
    let (q, e2) = expect_terminated(toks, p, e, TokenKind::RParen);
    let span = span_between(toks, pos, q);
    let (v, errs) = e2.into_parts();
    let v2 = match v {
        Some(x) => Some(Expr::Paren(ExprParen::new(Box::new(x), span))),
        None => None,
    };
    Ok((q, Partial::with_errors(v2, errs)))
}

/// The node of a set of bindings of kind `d`.
fn set_node(bl: BindList, span: Span, d: Delim) -> (res: Expr)
    ensures
        res@ == match d {
            Delim::Plain => crate::ast::ExprV::AttrSet(bl@, span),
            Delim::Rec => crate::ast::ExprV::Rec(bl@, span),
            Delim::Let => crate::ast::ExprV::Let(bl@, span),
        },
        sound::expr_has_error(res@) == sound::binds_have_error(bl@),
{
    let e = match d {
        Delim::Plain => Expr::AttrSet(ExprSet::new(bl.0, span)),
        Delim::Rec => Expr::Rec(ExprRec::new(bl.0, span)),
        Delim::Let => Expr::Let(ExprLet::new(bl.0, span)),
    };
    proof {
        lemma_seq_views(e);
    }
    e
}

fn delimited_set(toks: &[Token], pos: usize, start: usize, d: Delim) -> (res: PResult<Expr>)
    requires
        pos < start <= toks@.len(),
        pos <= toks@.len(),
        well_ordered(toks@),
    ensures
        res_view(res) == grammar::delimited_set(toks@, pos as int, start as int, d),
        progresses(res, pos as int, toks@.len() as int),
        sound::expr_res_sound(grammar::delimited_set(toks@, pos as int, start as int, d)),
    decreases toks@, toks@.len() - pos, 10nat,
{
    let (p, bs, berrs) = binds_till(toks, start, TokenKind::RBrace, Vec::new(), Errors::new());
    proof {
        assert(binds_view(Seq::<Bind>::empty()) =~= Seq::<crate::ast::BindV>::empty());
        assert(errors_view(Seq::<Error>::empty()) =~= Seq::<ErrorView>::empty());
    }
    let (q, bs2) = expect_terminated(toks, p, Partial::with_errors(Some(BindList(bs)), berrs), TokenKind::RBrace);
    let span = span_between(toks, pos, q);
    let (v, errs) = bs2.into_parts();
    let v2 = match v {
        Some(bl) => Some(set_node(bl, span, d)),
        None => None,
    };
    Ok((q, Partial::with_errors(v2, errs)))
}

fn list(toks: &[Token], pos: usize) -> (res: PResult<Expr>)
    requires
        pos <= toks@.len(),
        well_ordered(toks@),
    ensures
        res_view(res) == grammar::list(toks@, pos as int),
        progresses(res, pos as int, toks@.len() as int),
        sound::expr_res_sound(grammar::list(toks@, pos as int)),
    decreases toks@, toks@.len() - pos, 10nat,
{
    if !kind_at(toks, pos, TokenKind::LBracket) {
        return Err(expected_at(toks, pos, TokenKind::LBracket));
    }
    proof {
        assert(exprs_view(Seq::<Expr>::empty()) =~= Seq::<crate::ast::ExprV>::empty());
        assert(errors_view(Seq::<Error>::empty()) =~= Seq::<ErrorView>::empty());
    }
    let (p, es, eerrs) = exprs_till(toks, pos + 1, TokenKind::RBracket, Vec::new(), Errors::new(), Errors::new());
    let (q, es2) = expect_terminated(toks, p, Partial::with_errors(Some(ExprVec(es)), eerrs), TokenKind::RBracket);
    let span = span_between(toks, pos, q);
    let (v, errs) = es2.into_parts();
    let v2 = match v {
        Some(el) => {
            let e = Expr::List(ExprList::new(el.0, span));
            proof {
                lemma_seq_views(e);
            }
            Some(e)
        },
        None => None,
    };
    Ok((q, Partial::with_errors(v2, errs)))
}

fn exprs_till(
    toks: &[Token],
    p: usize,
    term: TokenKind,
    vals: Vec<Expr>,
    elem_errs: Errors,
    skip_errs: Errors,
) -> (res: (usize, Vec<Expr>, Errors))
    requires
        sound::reported(sound::exprs_have_error(exprs_view(vals@)), errors_view(elem_errs@)),
        p <= toks@.len(),
        well_ordered(toks@),
    ensures
        grammar::exprs_till(toks@, p as int, term, exprs_view(vals@), errors_view(elem_errs@), errors_view(skip_errs@))
            == (res.0 as int, PartialV { value: Some(exprs_view(res.1@)), errors: errors_view(res.2@) }),
        p <= res.0 <= toks@.len(),
        sound::reported(sound::exprs_have_error(exprs_view(res.1@)), errors_view(res.2@)),
    decreases toks@, toks@.len() - p, 21nat,
{
    if kind_at(toks, p, term) {
        let ghost e0 = elem_errs@;
        let mut errs = elem_errs;
        errs.extend(skip_errs);
        proof {
            lemma_errors_view_add(e0, skip_errs@);
        }
        return (p, vals, errs);
    }
    match project(toks, p) {
        Ok((q, e)) => {
            let (v, errs) = e.into_parts();
            let ghost gv = v;
            let ghost vals0 = exprs_view(vals@);
            let mut vals = vals;
            push_present(&mut vals, v);
            proof {
                if let Some(x) = gv {
                    sound::lemma_exprs_push(vals0, x@);
                }
            }
            let ghost e0 = elem_errs@;
            let mut elem_errs = elem_errs;
            elem_errs.extend(errs);
            proof {
                lemma_errors_view_add(e0, errs@);
            }
            exprs_till(toks, q, term, vals, elem_errs, skip_errs)
        },
        Err(errs) => {
            if at_end(toks, p) {
                (p, vals, elem_errs)
            } else {
                let ghost s0 = skip_errs@;
                let mut skip_errs = skip_errs;
                skip_errs.extend(errs);
                proof {
                    lemma_errors_view_add(s0, errs@);
                }
                exprs_till(toks, p + 1, term, vals, elem_errs, skip_errs)
            }
        },
    }
}

fn binds_till(toks: &[Token], p: usize, term: TokenKind, vals: Vec<Bind>, skip_errs: Errors) -> (res: (
    usize,
    Vec<Bind>,
    Errors,
))
    requires
        !sound::binds_have_error(binds_view(vals@)),
        p <= toks@.len(),
        well_ordered(toks@),
    ensures
        grammar::binds_till(toks@, p as int, term, binds_view(vals@), errors_view(skip_errs@))
            == (res.0 as int, PartialV { value: Some(binds_view(res.1@)), errors: errors_view(res.2@) }),
        p <= res.0 <= toks@.len(),
        !sound::binds_have_error(binds_view(res.1@)),
    decreases toks@, toks@.len() - p, 9nat,
{
    if kind_at(toks, p, term) {
        return (p, vals, skip_errs);
    }
    match bind(toks, p) {
        Ok((q, b)) => {
            let ghost v0 = vals@;
            let mut vals = vals;
            vals.push(b);
            proof {
                assert(binds_view(vals@) =~= binds_view(v0).push(b@));
                sound::lemma_binds_push(binds_view(v0), b@);
            }
            binds_till(toks, q, term, vals, skip_errs)
        },
        Err((_, errs)) => {
            if at_end(toks, p) {
                proof {
                    assert(errors_view(Seq::<Error>::empty()) =~= Seq::<ErrorView>::empty());
                }
                (p, vals, Errors::new())
            } else {
                let ghost s0 = skip_errs@;
                let mut skip_errs = skip_errs;
                skip_errs.extend(errs);
                proof {
                    lemma_errors_view_add(s0, errs@);
                }
                binds_till(toks, p + 1, term, vals, skip_errs)
            }
        },
    }
}

/// The result of a binding parser; a failure that no other alternative may retry carries
/// `true`.
pub type BindResult = Result<(usize, Bind), (bool, Errors)>;

/// The view of a binding parser's result.
pub open spec fn bind_res_view(r: BindResult) -> grammar::BindRes {
    match r {
        Ok((p, b)) => Ok((p as int, b@)),
        Err((f, e)) => Err((f, errors_view(e@))),
    }
}

/// A binding: `inherit names;`, `inherit (expr) names;`, or `attr.path = expr;`, each
/// optionally after doc comments.
pub fn bind(toks: &[Token], pos: usize) -> (res: BindResult)
    requires
        pos <= toks@.len(),
        well_ordered(toks@),
    ensures
        bind_res_view(res) == grammar::bind(toks@, pos as int),
        res matches Ok((q, _)) ==> pos < q <= toks@.len(),
        sound::bind_res_sound(grammar::bind(toks@, pos as int)),
    decreases toks@, toks@.len() - pos, 8nat,
{
    match inherit(toks, pos) {
        Ok(r) => return Ok(r),
        Err((true, e)) => return Err((true, e)),
        Err((false, _)) => {},
    }
    match inherit_expr(toks, pos) {
        Ok(r) => return Ok(r),
        Err((true, e)) => return Err((true, e)),
        Err((false, _)) => {},
    }
    simple(toks, pos)
}

fn idents_from(toks: &[Token], p: usize) -> (res: Vec<Ident>)
    requires
        p <= toks@.len(),
    ensures
        idents_view(res@) == grammar::idents_from(toks@, p as int),
        p + res@.len() <= toks@.len(),
    decreases toks@.len() - p,
{
    if kind_at(toks, p, TokenKind::Identifier) {
        let first = ident_at(toks, p);
        let rest = idents_from(toks, p + 1);
        let mut v = Vec::new();
        v.push(first);
        let mut rest = rest;
        let ghost r0 = rest@;
        v.append(&mut rest);
        proof {
            assert(idents_view(v@) =~= seq![first@] + idents_view(r0));
        }
        v
    } else {
        let v: Vec<Ident> = Vec::new();
        proof {
            assert(idents_view(v@) =~= Seq::<crate::ast::tokens::IdentV>::empty());
        }
        v
    }
}

fn inherit(toks: &[Token], pos: usize) -> (res: BindResult)
    requires
        pos <= toks@.len(),
        well_ordered(toks@),
    ensures
        bind_res_view(res) == grammar::inherit(toks@, pos as int),
        res matches Ok((q, _)) ==> pos < q <= toks@.len(),
        sound::bind_res_sound(grammar::inherit(toks@, pos as int)),
    decreases toks@, toks@.len() - pos, 7nat,
{
    let p = skip_comments(toks, pos);
    if !kind_at(toks, p, TokenKind::Inherit) {
        return Err((false, expected_at(toks, p, TokenKind::Inherit)));
    }
    let names = idents_from(toks, p + 1);
    let q = p + 1 + names.len();
    if names.len() == 0 {
        return Err((false, expected_at(toks, p + 1, TokenKind::Identifier)));
    }
    if !kind_at(toks, q, TokenKind::Semi) {
        return Err((true, expected_at(toks, q, TokenKind::Semi)));
    }
    let span = span_between(toks, pos, q + 1);
    Ok((q + 1, Bind::Inherit(BindInherit::new(names, span))))
}

fn inherit_expr(toks: &[Token], pos: usize) -> (res: BindResult)
    requires
        pos <= toks@.len(),
        well_ordered(toks@),
    ensures
        bind_res_view(res) == grammar::inherit_expr(toks@, pos as int),
        res matches Ok((q, _)) ==> pos < q <= toks@.len(),
        sound::bind_res_sound(grammar::inherit_expr(toks@, pos as int)),
    decreases toks@, toks@.len() - pos, 7nat,
{
    let p = skip_comments(toks, pos);
    if !kind_at(toks, p, TokenKind::Inherit) {
        return Err((false, expected_at(toks, p, TokenKind::Inherit)));
    }
    if !kind_at(toks, p + 1, TokenKind::LParen) {
        return Err((false, expected_at(toks, p + 1, TokenKind::LParen)));
    }
    let (q, e) = match expr(toks, p + 2) {
        Ok(r) => r,
        Err(e) => return Err((false, e)),
    };
    let (ev, eerrs) = e.into_parts();
    if !eerrs.is_empty() {
        return Err((false, eerrs));
    }
    let value = match ev {
        Some(v) => v,
        None => return Err((false, eerrs)),
    };
    if !kind_at(toks, q, TokenKind::RParen) {
        return Err((true, expected_at(toks, q, TokenKind::RParen)));
    }
    let names = idents_from(toks, q + 1);
    let r = q + 1 + names.len();
    if names.len() == 0 {
        return Err((false, expected_at(toks, q + 1, TokenKind::Identifier)));
    }
    if !kind_at(toks, r, TokenKind::Semi) {
        return Err((true, expected_at(toks, r, TokenKind::Semi)));
    }
    let span = span_between(toks, pos, r + 1);
    Ok((r + 1, Bind::InheritExpr(BindInheritExpr::new(Box::new(value), names, span))))
}

fn doc_comment(toks: &[Token], pos: usize) -> (res: Option<Comment>)
    requires
        pos <= toks@.len(),
    ensures
        comment_opt_view(res) == grammar::doc_comment(toks@, pos as int),
{
    let end = skip_comments(toks, pos);
    if end <= pos {
        return None;
    }
    proof {
        grammar::lemma_skip_comments(toks@, pos as int);
    }
    let mut text = match &toks[pos] {
        Token::Comment(t, _, _) => t.clone(),
        _ => String::new(),
    };
    let mut k = pos + 1;
    while k < end
        invariant
            pos < k <= end <= toks@.len(),
            text@ == grammar::comment_text(toks@, pos as int, k as int),
        decreases end - k,
    {
        text.append("\n");
        match &toks[k] {
            Token::Comment(t, _, _) => text.append(t.as_str()),
            _ => {},
        }
        k = k + 1;
    }
    Some(Comment::new(text, span_between(toks, pos, end)))
}

fn simple(toks: &[Token], pos: usize) -> (res: BindResult)
    requires
        pos <= toks@.len(),
        well_ordered(toks@),
    ensures
        bind_res_view(res) == grammar::simple(toks@, pos as int),
        res matches Ok((q, _)) ==> pos < q <= toks@.len(),
        sound::bind_res_sound(grammar::simple(toks@, pos as int)),
    decreases toks@, toks@.len() - pos, 7nat,
{
    let p = skip_comments(toks, pos);
    let (p2, path) = match attr_path(toks, p) {
        Ok(r) => r,
        Err(e) => return Err((false, e)),
    };
    let (pv, perrs) = path.into_parts();
    if !perrs.is_empty() {
        return Err((false, perrs));
    }
    let ap = match pv {
        Some(a) => a,
        None => return Err((false, perrs)),
    };
    if !kind_at(toks, p2, TokenKind::Eq) {
        return Err((true, expected_at(toks, p2, TokenKind::Eq)));
    }
    let (q, e) = match expr(toks, p2 + 1) {
        Ok(r) => r,
        Err(e) => return Err((false, e)),
    };
    let (ev, eerrs) = e.into_parts();
    if !eerrs.is_empty() {
        return Err((false, eerrs));
    }
    let value = match ev {
        Some(v) => v,
        None => return Err((false, eerrs)),
    };
    if !kind_at(toks, q, TokenKind::Semi) {
        return Err((true, expected_at(toks, q, TokenKind::Semi)));
    }
    let comment = doc_comment(toks, pos);
    let span = span_between(toks, pos, q + 1);
    Ok((q + 1, Bind::Simple(BindSimple::new(comment, ap, Box::new(value), span))))
}

/// A vector of bindings, viewed as the sequence of their views.
pub struct BindList(pub Vec<Bind>);

impl View for BindList {
    type V = Seq<crate::ast::BindV>;

    open spec fn view(&self) -> Seq<crate::ast::BindV> {
        binds_view(self.0@)
    }
}

/// A vector of expressions, viewed as the sequence of their views.
pub struct ExprVec(pub Vec<Expr>);

impl View for ExprVec {
    type V = Seq<crate::ast::ExprV>;

    open spec fn view(&self) -> Seq<crate::ast::ExprV> {
        exprs_view(self.0@)
    }
}

/// Asserts that a partial parse produced a value and reported no error: the value, or the
/// errors (the parser's own when it failed).
pub fn verify_full<T>(r: PResult<T>) -> (res: Result<(usize, T), Errors>)
    ensures
        r matches Err(e) ==> (res matches Err(e2) && e2@ == e@),
        r matches Ok((q, p)) ==> (p.is_complete() ==> res == Ok::<(usize, T), Errors>(
            (q, p.spec_value()->0),
        )),
        r matches Ok((q, p)) ==> (!p.is_complete() ==> (res matches Err(e2) && e2@
            == p.spec_errors())),
{
    match r {
        Err(e) => Err(e),
        Ok((q, p)) => match p.verify() {
            Ok(v) => Ok((q, v)),
            Err(e) => Err(e),
        },
    }
}

/// Whether every token from `q` on is an end-of-input token.
pub fn only_end_from(toks: &[Token], q: usize) -> (res: bool)
    ensures
        res == grammar::only_end_from(toks@, q as int),
{
    let n = toks.len();
    let mut i = q;
    while i < n
        invariant
            n == toks@.len(),
            q <= i || n <= i,
            forall|j: int| q <= j < i && j < n ==> grammar::kind_at(toks@, j, TokenKind::Eof),
        decreases n - i,
    {
        if !kind_at(toks, i, TokenKind::Eof) {
            return false;
        }
        i = i + 1;
    }
    true
}

/// Skips the comments that start at `pos`.
pub fn skip_comment_tokens(toks: &[Token], pos: usize) -> (res: usize)
    requires
        pos <= toks@.len(),
    ensures
        res == grammar::skip_comments(toks@, pos as int),
        pos <= res <= toks@.len(),
{
    skip_comments(toks, pos)
}

/// The comment token at `i`, as a comment.
pub fn comment_at(toks: &[Token], i: usize) -> (res: Comment)
    requires
        i < toks@.len(),
    ensures
        res@ == grammar::comment_at(toks@, i as int),
{
    let text = match &toks[i] {
        Token::Comment(t, _, _) => t.clone(),
        _ => String::new(),
    };
    Comment::new(text, toks[i].span())
}

/// The errors for the token at `q`, which was not expected.
pub fn unexpected_token(toks: &[Token], q: usize) -> (res: Errors)
    ensures
        errors_view(res@) == grammar::unexpected_at(toks@, q as int),
        res@.len() == 1,
{
    unexpected_at(toks, q)
}

/// The errors for a missing token of kind `k` at `pos`.
pub fn expected_token(toks: &[Token], pos: usize, k: TokenKind) -> (res: Errors)
    ensures
        errors_view(res@) == grammar::expected_at(toks@, pos as int, k),
        res@.len() == 1,
{
    expected_at(toks, pos, k)
}

} // verus!
