//! Parsing Nix expressions from a token stream.

use vstd::prelude::*;

use crate::ast::tokens::CommentV;
use crate::ast::{Expr, ExprV, SourceFile};
use crate::error::{errors_view, ErrorView, Errors};
use crate::lexer::tokens::{well_ordered, Token, TokenKind};
use crate::parser::grammar::{
    expected_at, file_comment, lemma_skip_comments, pv_complete, pv_of, skip_comments, PExpr,
};

pub mod combinators;
pub mod expr;
pub mod grammar;
pub mod partial;
pub mod sound;

pub use self::partial::Partial;

verus! {

/// Parses a whole token stream as one expression that reports no error; only end-of-input
/// tokens may follow it.
pub fn parse_expr(tokens: &[Token]) -> (res: Result<Expr, Errors>)
    requires
        well_ordered(tokens@),
    ensures
        match (res, grammar::parse_expr(tokens@)) {
            (Ok(e), Ok(v)) => e@ == v,
            (Err(e), Err(v)) => errors_view(e@) == v,
            _ => false,
        },
        res matches Ok(e) ==> !sound::expr_has_error(e@),
        res matches Err(e) ==> e@.len() > 0,
{
    let (q, e) = match expr::verify_full(expr::expr(tokens, 0)) {
        Ok(r) => r,
        Err(e) => return Err(e),
    };
    if !expr::only_end_from(tokens, q) {
        return Err(expr::unexpected_token(tokens, q));
    }
    Ok(e)
}

/// Parses a whole token stream as one expression, keeping the errors that it reports; only
/// end-of-input tokens may follow it.
pub fn parse_expr_partial(tokens: &[Token]) -> (res: Result<Partial<Expr>, Errors>)
    requires
        well_ordered(tokens@),
    ensures
        match (res, grammar::parse_expr_partial(tokens@)) {
            (Ok(p), Ok(v)) => p@ == v,
            (Err(e), Err(v)) => errors_view(e@) == v,
            _ => false,
        },
        res matches Ok(p) ==> sound::pexpr_sound(p@),
        res matches Err(e) ==> e@.len() > 0,
{
    let (q, p) = match expr::expr(tokens, 0) {
        Ok(r) => r,
        Err(e) => return Err(e),
    };
    if !expr::only_end_from(tokens, q) {
        return Err(expr::unexpected_token(tokens, q));
    }
    Ok(p)
}

/// Parses a whole source file: the last of the comments that open it becomes its doc
/// comment, and the rest must be one expression that reports no error.
pub fn parse_source_file(tokens: &[Token]) -> (res: Result<SourceFile, Errors>)
    requires
        well_ordered(tokens@),
    ensures
        match (res, grammar::parse_source_file(tokens@)) {
            (Ok(f), Ok((c, v))) => f@.comment == c && f@.expr == v,
            (Err(e), Err(v)) => errors_view(e@) == v,
            _ => false,
        },
        res matches Ok(f) ==> !sound::expr_has_error(f@.expr),
        res matches Err(e) ==> e@.len() > 0,
{
    let c = expr::skip_comment_tokens(tokens, 0);
    let (q, e) = match expr::verify_full(expr::expr(tokens, c)) {
        Ok(r) => r,
        Err(e) => return Err(e),
    };
    if !expr::only_end_from(tokens, q) {
        return Err(expr::unexpected_token(tokens, q));
    }
    let comment = if c > 0 {
        Some(expr::comment_at(tokens, c - 1))
    } else {
        None
    };
    Ok(SourceFile::new(comment, Box::new(e)))
}

/// Parses a whole source file that must open with a doc comment, keeping the errors that
/// its expression reports.
pub fn parse_source_file_partial(tokens: &[Token]) -> (res: Result<Partial<SourceFile>, Errors>)
    requires
        well_ordered(tokens@),
    ensures
        match (res, grammar::parse_source_file_partial(tokens@)) {
            (Ok(p), Ok((c, v))) => p@.errors == v.errors && match (p@.value, v.value) {
                (Some(f), Some(e)) => f.comment == Some(c) && f.expr == e,
                (None, None) => true,
                _ => false,
            },
            (Err(e), Err(v)) => errors_view(e@) == v,
            _ => false,
        },
        res matches Ok(p) ==> (p@.value matches Some(f) && sound::reported(
            sound::expr_has_error(f.expr),
            p@.errors,
        )),
        res matches Err(e) ==> e@.len() > 0,
{
    let c = expr::skip_comment_tokens(tokens, 0);
    if c == 0 {
        return Err(expr::expected_token(tokens, 0, TokenKind::Comment));
    }
    let (q, p) = match expr::expr(tokens, c) {
        Ok(r) => r,
        Err(e) => return Err(e),
    };
    if !expr::only_end_from(tokens, q) {
        return Err(expr::unexpected_token(tokens, q));
    }
    let comment = expr::comment_at(tokens, c - 1);
    let (v, errs) = p.into_parts();
    let value = match v {
        Some(e) => Some(SourceFile::new(Some(comment), Box::new(e))),
        None => None,
    };
    Ok(Partial::with_errors(value, errs))
}

/// A whole expression parses in full exactly when its partial parse succeeds with a value
/// and no error, and then both give the same expression; a partial parse that succeeds
/// with errors makes the full parse fail with those errors, and one that fails makes the
/// full parse fail too.
pub proof fn law_parse_expr_is_verified_partial(toks: Seq<Token>)
    ensures
        grammar::parse_expr(toks) matches Ok(v) ==> grammar::parse_expr_partial(toks) == Ok::<
            PExpr,
            Seq<ErrorView>,
        >(pv_of(v)),
        grammar::parse_expr_partial(toks) matches Ok(p) ==> (pv_complete(p) ==> grammar::parse_expr(
            toks,
        ) == Ok::<ExprV, Seq<ErrorView>>(p.value->0)) && (!pv_complete(p)
            ==> grammar::parse_expr(toks) == Err::<ExprV, Seq<ErrorView>>(p.errors)),
        grammar::parse_expr_partial(toks) is Err ==> grammar::parse_expr(toks) is Err,
{
    if let Ok(v) = grammar::parse_expr(toks) {
        if let Ok((q, pv)) = grammar::expr(toks, 0) {
            assert(pv.errors =~= Seq::<ErrorView>::empty());
        }
    }
}

/// A source file parses as its tokens parse as one expression, and its doc comment is the
/// last of the comments that open it; both fail with the same errors.
pub proof fn law_source_file_is_expr_with_doc(toks: Seq<Token>)
    ensures
        match (grammar::parse_source_file(toks), grammar::parse_expr(toks)) {
            (Ok((c, v)), Ok(w)) => c == file_comment(toks) && v == w,
            (Err(e), Err(f)) => e == f,
            _ => false,
        },
{
    lemma_source_expr_start(toks);
}

/// A source file that opens with a comment parses, with its errors kept, as its tokens parse
/// as one expression, with the last of those comments as its doc comment; one that opens
/// with no comment is refused with an error that expects one.
pub proof fn law_source_file_partial_is_expr_partial_with_doc(toks: Seq<Token>)
    ensures
        skip_comments(toks, 0) == 0 ==> grammar::parse_source_file_partial(toks) == Err::<
            (CommentV, PExpr),
            Seq<ErrorView>,
        >(expected_at(toks, 0, TokenKind::Comment)),
        skip_comments(toks, 0) > 0 ==> match (
            grammar::parse_source_file_partial(toks),
            grammar::parse_expr_partial(toks),
        ) {
            (Ok((c, p)), Ok(q)) => file_comment(toks) == Some(c) && p == q,
            (Err(e), Err(f)) => e == f,
            _ => false,
        },
{
    lemma_source_expr_start(toks);
}

/// Parsing an expression after the leading comments is parsing it from the start.
proof fn lemma_source_expr_start(toks: Seq<Token>)
    ensures
        grammar::expr(toks, skip_comments(toks, 0)) == grammar::expr(toks, 0),
{
    lemma_skip_comments(toks, 0);
    let c = skip_comments(toks, 0);
    assert(skip_comments(toks, c) == c);
}

} // verus!
