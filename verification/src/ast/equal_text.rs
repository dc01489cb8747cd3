//! Equal syntax trees are written out as the same text: equality compares everything that
//! the text shows, apart from the two parts that it leaves aside on purpose (the fallback of
//! a projection and the `@` name of a function with formal arguments).

use vstd::prelude::*;

use crate::ast::display::{
    binds_texts, bind_text, expr_text, exprs_texts, formal_text, formals_texts, fragment_text,
    fragments_texts, literal_text, names_texts, path_text, segment_text, segments_texts,
};
use crate::ast::eq::{
    same_bind, same_binds, same_expr, same_exprs, same_formal, same_formals, same_fragment,
    same_fragments, same_idents, same_path, same_segment, same_segments,
};
use crate::ast::tokens::IdentV;
use crate::ast::{AttrSegmentV, BindV, Expr, ExprV, FormalV, FragmentV};

verus! {

/// No projection in the expression has a fallback and no function with formal arguments in
/// it has an `@` name: everything that its text shows is compared by equality.
pub open spec fn fully_compared(e: ExprV) -> bool
    decreases e,
{
    match e {
        ExprV::Paren(x, _) => fully_compared(*x),
        ExprV::Interpolation(x, _) => fully_compared(*x),
        ExprV::List(xs, _) => exprs_fully_compared(xs),
        ExprV::String(fs, _) => fragments_fully_compared(fs),
        ExprV::AttrSet(bs, _) => binds_fully_compared(bs),
        ExprV::Unary(_, x, _) => fully_compared(*x),
        ExprV::Binary(_, x, y, _) => fully_compared(*x) && fully_compared(*y),
        ExprV::Let(bs, _) => binds_fully_compared(bs),
        ExprV::Rec(bs, _) => binds_fully_compared(bs),
        ExprV::Proj(x, p, f, _) => f is None && fully_compared(*x) && segments_fully_compared(
            p.segments,
        ),
        ExprV::If(c, x, y, _) => fully_compared(*c) && fully_compared(*x) && fully_compared(*y),
        ExprV::Or(x, y, _) => fully_compared(*x) && fully_compared(*y),
        ExprV::Assert(x, y, _) => fully_compared(*x) && fully_compared(*y),
        ExprV::With(x, y, _) => fully_compared(*x) && fully_compared(*y),
        ExprV::LetIn(bs, x, _) => binds_fully_compared(bs) && fully_compared(*x),
        ExprV::FnSimple(_, x, _) => fully_compared(*x),
        ExprV::FnFormals(fs, _, extra, x, _) => extra is None && formals_fully_compared(fs)
            && fully_compared(*x),
        ExprV::FnApp(x, y, _) => fully_compared(*x) && fully_compared(*y),
        _ => true,
    }
}

/// Every expression of the sequence is `fully_compared`.
pub open spec fn exprs_fully_compared(s: Seq<ExprV>) -> bool
    decreases s,
{
    if s.len() == 0 {
        true
    } else {
        proof {
            assert(decreases_to!(s => s.drop_last()));
        }
        exprs_fully_compared(s.drop_last()) && fully_compared(s.last())
    }
}

/// Every interpolation among the fragments is `fully_compared`.
pub open spec fn fragments_fully_compared(s: Seq<FragmentV>) -> bool
    decreases s,
{
    if s.len() == 0 {
        true
    } else {
        proof {
            assert(decreases_to!(s => s.drop_last()));
        }
        fragments_fully_compared(s.drop_last()) && match s.last() {
            FragmentV::Literal(..) => true,
            FragmentV::Interpolation(x, _) => fully_compared(*x),
        }
    }
}

/// Every expression in the bindings is `fully_compared`.
pub open spec fn binds_fully_compared(s: Seq<BindV>) -> bool
    decreases s,
{
    if s.len() == 0 {
        true
    } else {
        proof {
            assert(decreases_to!(s => s.drop_last()));
        }
        binds_fully_compared(s.drop_last()) && bind_fully_compared(s.last())
    }
}

/// Every expression in the binding is `fully_compared`.
pub open spec fn bind_fully_compared(b: BindV) -> bool
    decreases b,
{
    match b {
        BindV::Simple(_, p, x, _) => segments_fully_compared(p.segments) && fully_compared(*x),
        BindV::Inherit(..) => true,
        BindV::InheritExpr(x, _, _) => fully_compared(*x),
    }
}

/// Every expression in the path segments is `fully_compared`.
pub open spec fn segments_fully_compared(s: Seq<AttrSegmentV>) -> bool
    decreases s,
{
    if s.len() == 0 {
        true
    } else {
        proof {
            assert(decreases_to!(s => s.drop_last()));
        }
        segments_fully_compared(s.drop_last()) && segment_fully_compared(s.last())
    }
}

/// Every expression in the path segment is `fully_compared`.
pub open spec fn segment_fully_compared(g: AttrSegmentV) -> bool
    decreases g,
{
    match g {
        AttrSegmentV::Ident(_) => true,
        AttrSegmentV::Interpolation(x, _) => fully_compared(*x),
        AttrSegmentV::String(fs, _) => fragments_fully_compared(fs),
    }
}

/// Every default of the formal arguments is `fully_compared`.
pub open spec fn formals_fully_compared(s: Seq<FormalV>) -> bool
    decreases s,
{
    if s.len() == 0 {
        true
    } else {
        proof {
            assert(decreases_to!(s => s.drop_last()));
        }
        formals_fully_compared(s.drop_last()) && match s.last().default {
            Some(d) => fully_compared(*d),
            None => true,
        }
    }
}

/// Equal expressions have the same text.
pub proof fn lemma_same_expr_text(a: ExprV, b: ExprV)
    requires
        same_expr(a, b),
        fully_compared(a),
        fully_compared(b),
    ensures
        expr_text(a) == expr_text(b),
    decreases a,
{
    match (a, b) {
        (ExprV::Paren(x, _), ExprV::Paren(y, _)) => {
            lemma_same_expr_text(*x, *y);
        },
        (ExprV::Interpolation(x, _), ExprV::Interpolation(y, _)) => {
            lemma_same_expr_text(*x, *y);
        },
        (ExprV::List(x, _), ExprV::List(y, _)) => {
            lemma_same_exprs_texts(x, y);
        },
        (ExprV::String(x, _), ExprV::String(y, _)) => {
            lemma_same_fragments_texts(x, y);
        },
        (ExprV::AttrSet(x, _), ExprV::AttrSet(y, _)) => {
            lemma_same_binds_texts(x, y);
        },
        (ExprV::Unary(_, x, _), ExprV::Unary(_, y, _)) => {
            lemma_same_expr_text(*x, *y);
        },
        (ExprV::Binary(_, x1, x2, _), ExprV::Binary(_, y1, y2, _)) => {
            lemma_same_expr_text(*x1, *y1);
            lemma_same_expr_text(*x2, *y2);
        },
        (ExprV::Let(x, _), ExprV::Let(y, _)) => {
            lemma_same_binds_texts(x, y);
        },
        (ExprV::Rec(x, _), ExprV::Rec(y, _)) => {
            lemma_same_binds_texts(x, y);
        },
        (ExprV::Proj(x, p, _, _), ExprV::Proj(y, q, _, _)) => {
            assert(same_path(p, q));
            assert(same_segments(p.segments, q.segments));
            lemma_same_expr_text(*x, *y);
            lemma_same_segments_texts(p.segments, q.segments);
            assert(path_text(p) == path_text(q));
        },
        (ExprV::If(x0, x1, x2, _), ExprV::If(y0, y1, y2, _)) => {
            lemma_same_expr_text(*x0, *y0);
            lemma_same_expr_text(*x1, *y1);
            lemma_same_expr_text(*x2, *y2);
        },
        (ExprV::Or(x0, x1, _), ExprV::Or(y0, y1, _)) => {
            lemma_same_expr_text(*x0, *y0);
            lemma_same_expr_text(*x1, *y1);
        },
        (ExprV::Assert(x0, x1, _), ExprV::Assert(y0, y1, _)) => {
            lemma_same_expr_text(*x0, *y0);
            lemma_same_expr_text(*x1, *y1);
        },
        (ExprV::With(x0, x1, _), ExprV::With(y0, y1, _)) => {
            lemma_same_expr_text(*x0, *y0);
            lemma_same_expr_text(*x1, *y1);
        },
        (ExprV::LetIn(x0, x1, _), ExprV::LetIn(y0, y1, _)) => {
            lemma_same_binds_texts(x0, y0);
            lemma_same_expr_text(*x1, *y1);
        },
        (ExprV::FnSimple(_, x, _), ExprV::FnSimple(_, y, _)) => {
            lemma_same_expr_text(*x, *y);
        },
        (ExprV::FnFormals(x0, _, _, _, _), ExprV::FnFormals(y0, _, _, _, _)) => {
            lemma_same_formals_texts(x0, y0);
            assert(x0.len() == y0.len());
        },
        (ExprV::Literal(x), ExprV::Literal(y)) => {
            assert(literal_text(x) == literal_text(y));
        },
        (ExprV::FnApp(x0, x1, _), ExprV::FnApp(y0, y1, _)) => {
            lemma_same_expr_text(*x0, *y0);
            lemma_same_expr_text(*x1, *y1);
        },
        _ => {},
    }
}

/// Equal sequences of expressions have the same texts.
pub proof fn lemma_same_exprs_texts(a: Seq<ExprV>, b: Seq<ExprV>)
    requires
        same_exprs(a, b),
        exprs_fully_compared(a),
        exprs_fully_compared(b),
    ensures
        exprs_texts(a) == exprs_texts(b),
    decreases a,
{
    if a.len() > 0 {
        assert(decreases_to!(a => a.drop_last()));
        lemma_same_exprs_texts(a.drop_last(), b.drop_last());
        lemma_same_expr_text(a.last(), b.last());
        assert(exprs_texts(a) =~= exprs_texts(a.drop_last()).push(expr_text(a.last())));
        assert(exprs_texts(b) =~= exprs_texts(b.drop_last()).push(expr_text(b.last())));
    } else {
        assert(exprs_texts(a) =~= exprs_texts(b));
    }
}

/// Equal sequences of string fragments have the same texts.
pub proof fn lemma_same_fragments_texts(a: Seq<FragmentV>, b: Seq<FragmentV>)
    requires
        same_fragments(a, b),
        fragments_fully_compared(a),
        fragments_fully_compared(b),
    ensures
        fragments_texts(a) == fragments_texts(b),
    decreases a,
{
    if a.len() > 0 {
        assert(decreases_to!(a => a.drop_last()));
        lemma_same_fragments_texts(a.drop_last(), b.drop_last());
        lemma_same_fragment_text(a.last(), b.last());
        assert(fragments_texts(a) =~= fragments_texts(a.drop_last()).push(
            fragment_text(a.last()),
        ));
        assert(fragments_texts(b) =~= fragments_texts(b.drop_last()).push(
            fragment_text(b.last()),
        ));
    } else {
        assert(fragments_texts(a) =~= fragments_texts(b));
    }
}

/// Equal string fragments have the same text.
pub proof fn lemma_same_fragment_text(a: FragmentV, b: FragmentV)
    requires
        same_fragment(a, b),
        a matches FragmentV::Interpolation(x, _) ==> fully_compared(*x),
        b matches FragmentV::Interpolation(y, _) ==> fully_compared(*y),
    ensures
        fragment_text(a) == fragment_text(b),
    decreases a,
{
    if let (FragmentV::Interpolation(x, _), FragmentV::Interpolation(y, _)) = (a, b) {
        lemma_same_expr_text(*x, *y);
    }
}

/// Equal sequences of bindings have the same texts.
pub proof fn lemma_same_binds_texts(a: Seq<BindV>, b: Seq<BindV>)
    requires
        same_binds(a, b),
        binds_fully_compared(a),
        binds_fully_compared(b),
    ensures
        binds_texts(a) == binds_texts(b),
    decreases a,
{
    if a.len() > 0 {
        assert(decreases_to!(a => a.drop_last()));
        lemma_same_binds_texts(a.drop_last(), b.drop_last());
        lemma_same_bind_text(a.last(), b.last());
        assert(binds_texts(a) =~= binds_texts(a.drop_last()).push(bind_text(a.last())));
        assert(binds_texts(b) =~= binds_texts(b.drop_last()).push(bind_text(b.last())));
    } else {
        assert(binds_texts(a) =~= binds_texts(b));
    }
}

/// Equal bindings have the same text.
pub proof fn lemma_same_bind_text(a: BindV, b: BindV)
    requires
        same_bind(a, b),
        bind_fully_compared(a),
        bind_fully_compared(b),
    ensures
        bind_text(a) == bind_text(b),
    decreases a,
{
    match (a, b) {
        (BindV::Simple(_, p, x, _), BindV::Simple(_, q, y, _)) => {
            lemma_same_segments_texts(p.segments, q.segments);
            lemma_same_expr_text(*x, *y);
        },
        (BindV::Inherit(n, _), BindV::Inherit(m, _)) => {
            lemma_same_names_texts(n, m);
        },
        (BindV::InheritExpr(x, n, _), BindV::InheritExpr(y, m, _)) => {
            lemma_same_expr_text(*x, *y);
            lemma_same_names_texts(n, m);
        },
        _ => {},
    }
}

/// Equal sequences of names have the same texts.
pub proof fn lemma_same_names_texts(a: Seq<IdentV>, b: Seq<IdentV>)
    requires
        same_idents(a, b),
    ensures
        names_texts(a) == names_texts(b),
    decreases a.len(),
{
    if a.len() > 0 {
        lemma_same_names_texts(a.drop_last(), b.drop_last());
        assert(names_texts(a) =~= names_texts(a.drop_last()).push(a.last().name));
        assert(names_texts(b) =~= names_texts(b.drop_last()).push(b.last().name));
    } else {
        assert(names_texts(a) =~= names_texts(b));
    }
}

/// Equal sequences of path segments have the same texts.
pub proof fn lemma_same_segments_texts(a: Seq<AttrSegmentV>, b: Seq<AttrSegmentV>)
    requires
        same_segments(a, b),
        segments_fully_compared(a),
        segments_fully_compared(b),
    ensures
        segments_texts(a) == segments_texts(b),
    decreases a,
{
    if a.len() > 0 {
        assert(decreases_to!(a => a.drop_last()));
        lemma_same_segments_texts(a.drop_last(), b.drop_last());
        lemma_same_segment_text(a.last(), b.last());
        assert(segments_texts(a) =~= segments_texts(a.drop_last()).push(segment_text(a.last())));
        assert(segments_texts(b) =~= segments_texts(b.drop_last()).push(segment_text(b.last())));
    } else {
        assert(segments_texts(a) =~= segments_texts(b));
    }
}

/// Equal path segments have the same text.
pub proof fn lemma_same_segment_text(a: AttrSegmentV, b: AttrSegmentV)
    requires
        same_segment(a, b),
        segment_fully_compared(a),
        segment_fully_compared(b),
    ensures
        segment_text(a) == segment_text(b),
    decreases a,
{
    match (a, b) {
        (AttrSegmentV::Interpolation(x, _), AttrSegmentV::Interpolation(y, _)) => {
            lemma_same_expr_text(*x, *y);
        },
        (AttrSegmentV::String(x, _), AttrSegmentV::String(y, _)) => {
            lemma_same_fragments_texts(x, y);
        },
        _ => {},
    }
}

/// Equal sequences of formal arguments have the same texts.
pub proof fn lemma_same_formals_texts(a: Seq<FormalV>, b: Seq<FormalV>)
    requires
        same_formals(a, b),
        formals_fully_compared(a),
        formals_fully_compared(b),
    ensures
        formals_texts(a) == formals_texts(b),
    decreases a,
{
    if a.len() > 0 {
        assert(decreases_to!(a => a.drop_last()));
        lemma_same_formals_texts(a.drop_last(), b.drop_last());
        let (x, y) = (a.last(), b.last());
        assert(same_formal(x, y));
        if let (Some(d), Some(e)) = (x.default, y.default) {
            assert(same_expr(*d, *e));
            lemma_same_expr_text(*d, *e);
        }
        assert(formal_text(x) == formal_text(y));
        assert(formals_texts(a) =~= formals_texts(a.drop_last()).push(formal_text(x)));
        assert(formals_texts(b) =~= formals_texts(b.drop_last()).push(formal_text(y)));
    } else {
        assert(formals_texts(a) =~= formals_texts(b));
    }
}

/// Equal expressions are written out as the same text, wherever no projection has a
/// fallback and no function with formal arguments has an `@` name (the two parts that
/// equality leaves aside). In particular two binary expressions with different operators,
/// or two unary ones, literals or names that differ, are never equal.
pub proof fn law_equal_exprs_have_equal_text(a: Expr, b: Expr)
    requires
        same_expr(a@, b@),
        fully_compared(a@),
        fully_compared(b@),
    ensures
        expr_text(a@) == expr_text(b@),
{
    lemma_same_expr_text(a@, b@);
}

} // verus!
