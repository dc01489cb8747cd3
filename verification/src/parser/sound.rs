//! Error reporting: wherever a parse result holds an error node, an error was reported.

use vstd::prelude::*;

use crate::ast::{AttrPathV, AttrSegmentV, BinaryOp, BindV, ExprV, FormalV, FragmentV};
use crate::error::ErrorView;
use crate::parser::grammar::{formals_of, right_fold, BindRes, FormalItemV, PExpr, Res};
use crate::parser::partial::PartialV;

verus! {

/// The expression holds an error node somewhere.
pub open spec fn expr_has_error(e: ExprV) -> bool
    decreases e,
{
    match e {
        ExprV::Error(_) => true,
        ExprV::Trap(_) => true,
        ExprV::Ident(_) => false,
        ExprV::Literal(_) => false,
        ExprV::Paren(b, _) => expr_has_error(*b),
        ExprV::Interpolation(b, _) => expr_has_error(*b),
        ExprV::Unary(_, b, _) => expr_has_error(*b),
        ExprV::List(es, _) => exprs_have_error(es),
        ExprV::String(fs, _) => fragments_have_error(fs),
        ExprV::AttrSet(bs, _) => binds_have_error(bs),
        ExprV::Let(bs, _) => binds_have_error(bs),
        ExprV::Rec(bs, _) => binds_have_error(bs),
        ExprV::Binary(_, l, r, _) => expr_has_error(*l) || expr_has_error(*r),
        ExprV::Proj(b, p, f, _) => expr_has_error(*b) || path_has_error(p) || match f {
            Some(x) => expr_has_error(*x),
            None => false,
        },
        ExprV::If(c, b, f, _) => expr_has_error(*c) || expr_has_error(*b) || expr_has_error(*f),
        ExprV::Or(a, b, _) => expr_has_error(*a) || expr_has_error(*b),
        ExprV::Assert(a, b, _) => expr_has_error(*a) || expr_has_error(*b),
        ExprV::With(a, b, _) => expr_has_error(*a) || expr_has_error(*b),
        ExprV::FnApp(a, b, _) => expr_has_error(*a) || expr_has_error(*b),
        ExprV::LetIn(bs, b, _) => binds_have_error(bs) || expr_has_error(*b),
        ExprV::FnSimple(_, b, _) => expr_has_error(*b),
        ExprV::FnFormals(fs, _, _, b, _) => formals_have_error(fs) || expr_has_error(*b),
    }
}

/// Some expression among `es` holds an error node.
pub open spec fn exprs_have_error(es: Seq<ExprV>) -> bool
    decreases es,
{
    if es.len() == 0 {
        false
    } else {
        proof {
            assert(decreases_to!(es => es.drop_last()));
        }
        exprs_have_error(es.drop_last()) || expr_has_error(es.last())
    }
}

/// Some fragment among `fs` holds an error node.
pub open spec fn fragments_have_error(fs: Seq<FragmentV>) -> bool
    decreases fs,
{
    if fs.len() == 0 {
        false
    } else {
        proof {
            assert(decreases_to!(fs => fs.drop_last()));
        }
        fragments_have_error(fs.drop_last()) || fragment_has_error(fs.last())
    }
}

/// Some binding among `bs` holds an error node.
pub open spec fn binds_have_error(bs: Seq<BindV>) -> bool
    decreases bs,
{
    if bs.len() == 0 {
        false
    } else {
        proof {
            assert(decreases_to!(bs => bs.drop_last()));
        }
        binds_have_error(bs.drop_last()) || bind_has_error(bs.last())
    }
}

/// Some formal argument among `fs` holds an error node.
pub open spec fn formals_have_error(fs: Seq<FormalV>) -> bool
    decreases fs,
{
    if fs.len() == 0 {
        false
    } else {
        proof {
            assert(decreases_to!(fs => fs.drop_last()));
        }
        formals_have_error(fs.drop_last()) || formal_has_error(fs.last())
    }
}

/// Some segment among `ss` holds an error node.
pub open spec fn segments_have_error(ss: Seq<AttrSegmentV>) -> bool
    decreases ss,
{
    if ss.len() == 0 {
        false
    } else {
        proof {
            assert(decreases_to!(ss => ss.drop_last()));
        }
        segments_have_error(ss.drop_last()) || segment_has_error(ss.last())
    }
}

/// The fragment holds an error node.
pub open spec fn fragment_has_error(f: FragmentV) -> bool
    decreases f,
{
    match f {
        FragmentV::Literal(..) => false,
        FragmentV::Interpolation(e, _) => expr_has_error(*e),
    }
}

/// The binding holds an error node.
pub open spec fn bind_has_error(b: BindV) -> bool
    decreases b,
{
    match b {
        BindV::Simple(_, p, e, _) => path_has_error(p) || expr_has_error(*e),
        BindV::Inherit(..) => false,
        BindV::InheritExpr(e, _, _) => expr_has_error(*e),
    }
}

/// The attribute path holds an error node.
pub open spec fn path_has_error(p: AttrPathV) -> bool
    decreases p,
{
    segments_have_error(p.segments)
}

/// The segment holds an error node.
pub open spec fn segment_has_error(s: AttrSegmentV) -> bool
    decreases s,
{
    match s {
        AttrSegmentV::Ident(_) => false,
        AttrSegmentV::Interpolation(e, _) => expr_has_error(*e),
        AttrSegmentV::String(fs, _) => fragments_have_error(fs),
    }
}

/// The formal argument holds an error node.
pub open spec fn formal_has_error(f: FormalV) -> bool
    decreases f,
{
    match f.default {
        Some(d) => expr_has_error(*d),
        None => false,
    }
}

/// The formal item holds an error node.
pub open spec fn item_has_error(i: FormalItemV) -> bool {
    match i {
        FormalItemV::Formal(f) => formal_has_error(f),
        FormalItemV::Ellipsis(_) => false,
    }
}

/// Some formal item among `items` holds an error node.
pub open spec fn items_have_error(items: Seq<FormalItemV>) -> bool
    decreases items.len(),
{
    if items.len() == 0 {
        false
    } else {
        items_have_error(items.drop_last()) || item_has_error(items.last())
    }
}

/// When `bad` holds, some error was reported.
pub open spec fn reported(bad: bool, errs: Seq<ErrorView>) -> bool {
    bad ==> errs.len() > 0
}

/// A partial expression holds a value, and an error was reported if that value holds an
/// error node.
pub open spec fn pexpr_sound(p: PExpr) -> bool {
    p.value is Some && reported(expr_has_error(p.value->0), p.errors)
}

/// A parse of an expression is sound: a success is sound, and a failure reports an error.
pub open spec fn expr_res_sound(r: Res<PExpr>) -> bool {
    match r {
        Ok((_, p)) => pexpr_sound(p),
        Err(e) => e.len() > 0,
    }
}

/// A parse of two expressions is sound.
pub open spec fn pair_res_sound(r: Res<PartialV<(ExprV, ExprV)>>) -> bool {
    match r {
        Ok((_, p)) => p.value is Some && reported(
            expr_has_error((p.value->0).0) || expr_has_error((p.value->0).1),
            p.errors,
        ),
        Err(e) => e.len() > 0,
    }
}

/// A parse of a segment is sound.
pub open spec fn segment_res_sound(r: Res<PartialV<AttrSegmentV>>) -> bool {
    match r {
        Ok((_, p)) => p.value is Some && reported(segment_has_error(p.value->0), p.errors),
        Err(e) => e.len() > 0,
    }
}

/// A parse of an attribute path is sound.
pub open spec fn path_res_sound(r: Res<PartialV<AttrPathV>>) -> bool {
    match r {
        Ok((_, p)) => p.value is Some && reported(path_has_error(p.value->0), p.errors),
        Err(e) => e.len() > 0,
    }
}

/// A parse of a formal item is sound.
pub open spec fn item_res_sound(r: Res<PartialV<FormalItemV>>) -> bool {
    match r {
        Ok((_, p)) => p.value is Some && reported(item_has_error(p.value->0), p.errors),
        Err(e) => e.len() > 0,
    }
}

/// A parse of formal items is sound.
pub open spec fn items_res_sound(r: Res<PartialV<Seq<FormalItemV>>>) -> bool {
    match r {
        Ok((_, p)) => p.value is Some && reported(items_have_error(p.value->0), p.errors),
        Err(e) => e.len() > 0,
    }
}

/// A binding that was read holds no error node.
pub open spec fn bind_res_sound(r: BindRes) -> bool {
    r matches Ok((_, b)) ==> !bind_has_error(b)
}

/// Appending an expression adds its error nodes to those of the sequence.
pub proof fn lemma_exprs_push(es: Seq<ExprV>, e: ExprV)
    ensures
        exprs_have_error(es.push(e)) == (exprs_have_error(es) || expr_has_error(e)),
{
    assert(es.push(e).drop_last() =~= es);
}

/// Putting an expression in front adds its error nodes to those of the sequence.
pub proof fn lemma_exprs_prepend(e: ExprV, es: Seq<ExprV>)
    ensures
        exprs_have_error(seq![e] + es) == (expr_has_error(e) || exprs_have_error(es)),
    decreases es.len(),
{
    if es.len() == 0 {
        assert((seq![e] + es).drop_last() =~= Seq::<ExprV>::empty());
        assert(!exprs_have_error(Seq::<ExprV>::empty()));
        assert(!exprs_have_error(es));
    } else {
        lemma_exprs_prepend(e, es.drop_last());
        assert((seq![e] + es).drop_last() =~= seq![e] + es.drop_last());
        assert((seq![e] + es).last() == es.last());
    }
}

/// Appending a segment adds its error nodes to those of the sequence.
pub proof fn lemma_segments_push(ss: Seq<AttrSegmentV>, x: AttrSegmentV)
    ensures
        segments_have_error(ss.push(x)) == (segments_have_error(ss) || segment_has_error(x)),
{
    assert(ss.push(x).drop_last() =~= ss);
}

/// Appending a formal item adds its error nodes to those of the sequence.
pub proof fn lemma_items_push(items: Seq<FormalItemV>, x: FormalItemV)
    ensures
        items_have_error(items.push(x)) == (items_have_error(items) || item_has_error(x)),
{
    assert(items.push(x).drop_last() =~= items);
}

/// Appending a binding adds its error nodes to those of the sequence.
pub proof fn lemma_binds_push(bs: Seq<BindV>, b: BindV)
    ensures
        binds_have_error(bs.push(b)) == (binds_have_error(bs) || bind_has_error(b)),
{
    assert(bs.push(b).drop_last() =~= bs);
}

/// Putting a fragment in front adds its error nodes to those of the sequence.
pub proof fn lemma_fragments_prepend(f: FragmentV, fs: Seq<FragmentV>)
    ensures
        fragments_have_error(seq![f] + fs) == (fragment_has_error(f) || fragments_have_error(fs)),
    decreases fs.len(),
{
    if fs.len() == 0 {
        assert((seq![f] + fs).drop_last() =~= Seq::<FragmentV>::empty());
        assert(!fragments_have_error(Seq::<FragmentV>::empty()));
        assert(!fragments_have_error(fs));
    } else {
        lemma_fragments_prepend(f, fs.drop_last());
        assert((seq![f] + fs).drop_last() =~= seq![f] + fs.drop_last());
        assert((seq![f] + fs).last() == fs.last());
    }
}

/// An operator chain folded from the right holds an error node exactly when one of its
/// operands does.
pub proof fn lemma_right_fold(es: Seq<ExprV>, op: BinaryOp)
    requires
        es.len() > 0,
    ensures
        expr_has_error(right_fold(es, op)) == exprs_have_error(es),
    decreases es.len(),
{
    if es.len() > 1 {
        let rest = es.drop_first();
        lemma_right_fold(rest, op);
        lemma_exprs_prepend(es[0], rest);
        assert(seq![es[0]] + rest =~= es);
    } else {
        assert(es.drop_last() =~= Seq::<ExprV>::empty());
        assert(!exprs_have_error(Seq::<ExprV>::empty()));
    }
}

/// The formal arguments among the items hold an error node only where an item does.
pub proof fn lemma_formals_of(items: Seq<FormalItemV>)
    ensures
        formals_have_error(formals_of(items)) ==> items_have_error(items),
    decreases items.len(),
{
    if items.len() > 0 {
        let init = items.drop_last();
        lemma_formals_of(init);
        match items.last() {
            FormalItemV::Formal(f) => {
                assert(formals_of(init).push(f).drop_last() =~= formals_of(init));
            },
            FormalItemV::Ellipsis(_) => {},
        }
    }
}

} // verus!
