//! Equality of syntax trees: two trees are equal when they agree in everything but their
//! spans, under the comparison rules of each kind of node.

use vstd::prelude::*;

use vstd::std_specs::cmp::PartialEqSpecImpl;

use crate::ast::tokens::{Comment, CommentV, Ident, IdentV, Literal, LiteralV};
use crate::ast::{
    binds_view, exprs_view, formals_view, fragments_view, idents_view, lemma_attr_path_view,
    lemma_segment_view, lemma_seq_views, segments_view, AttrPath, AttrPathV, AttrSegment,
    AttrSegmentV, Bind, BindInherit, BindInheritExpr, BindSimple, BindV, Expr, ExprAssert,
    ExprBinary, ExprFnApp, ExprFnDecl, ExprIf, ExprInterpolation, ExprLet, ExprLetIn, ExprList,
    ExprOr, ExprParen, ExprProj, ExprRec, ExprSet, ExprString, ExprUnary, ExprV, ExprWith,
    FnDeclFormals, FnDeclSimple, Formal, FormalV, FragmentV, SourceFile, StringFragment,
};

verus! {

/// Two identifiers are equal when their names are.
pub open spec fn same_ident(a: IdentV, b: IdentV) -> bool {
    a.name == b.name
}

/// Two comments are equal when their texts are.
pub open spec fn same_comment(a: CommentV, b: CommentV) -> bool {
    a.text == b.text
}

/// Two optional comments are equal when both are missing or both are equal comments.
pub open spec fn same_comment_opt(a: Option<CommentV>, b: Option<CommentV>) -> bool {
    match (a, b) {
        (None, None) => true,
        (Some(x), Some(y)) => same_comment(x, y),
        _ => false,
    }
}

/// Two literals are equal when they are of the same kind with the same value.
pub open spec fn same_literal(a: LiteralV, b: LiteralV) -> bool {
    match (a, b) {
        (LiteralV::Null(_), LiteralV::Null(_)) => true,
        (LiteralV::Boolean(x, _), LiteralV::Boolean(y, _)) => x == y,
        (LiteralV::Float(x, _), LiteralV::Float(y, _)) => x == y,
        (LiteralV::Integer(x, _), LiteralV::Integer(y, _)) => x == y,
        (LiteralV::Path(x, _), LiteralV::Path(y, _)) => x == y,
        (LiteralV::PathTemplate(x, _), LiteralV::PathTemplate(y, _)) => x == y,
        (LiteralV::Uri(x, _), LiteralV::Uri(y, _)) => x == y,
        _ => false,
    }
}

/// Two sequences of identifiers are equal when they have the same length and are equal
/// one by one.
pub open spec fn same_idents(a: Seq<IdentV>, b: Seq<IdentV>) -> bool
    decreases a.len(),
{
    if a.len() != b.len() {
        false
    } else if a.len() == 0 {
        true
    } else {
        same_idents(a.drop_last(), b.drop_last()) && same_ident(a.last(), b.last())
    }
}

/// Two expressions are equal.
pub open spec fn same_expr(a: ExprV, b: ExprV) -> bool
    decreases a,
{
    match (a, b) {
        (ExprV::Paren(x, _), ExprV::Paren(y, _)) => same_expr(*x, *y),
        (ExprV::Ident(x), ExprV::Ident(y)) => same_ident(x, y),
        (ExprV::Interpolation(x, _), ExprV::Interpolation(y, _)) => same_expr(*x, *y),
        (ExprV::Literal(x), ExprV::Literal(y)) => same_literal(x, y),
        (ExprV::List(x, _), ExprV::List(y, _)) => same_exprs(x, y),
        (ExprV::String(x, _), ExprV::String(y, _)) => same_fragments(x, y),
        (ExprV::AttrSet(x, _), ExprV::AttrSet(y, _)) => same_binds(x, y),
        (ExprV::Unary(o, x, _), ExprV::Unary(p, y, _)) => o == p && same_expr(*x, *y),
        (ExprV::Binary(o, l, r, _), ExprV::Binary(p, m, s, _)) => o == p && same_expr(*l, *m)
            && same_expr(*r, *s),
        (ExprV::Let(x, _), ExprV::Let(y, _)) => same_binds(x, y),
        (ExprV::Rec(x, _), ExprV::Rec(y, _)) => same_binds(x, y),
        (ExprV::Proj(x, p, _, _), ExprV::Proj(y, q, _, _)) => same_expr(*x, *y) && same_path(p, q),
        (ExprV::If(c, x, f, _), ExprV::If(d, y, g, _)) => same_expr(*c, *d) && same_expr(*x, *y)
            && same_expr(*f, *g),
        (ExprV::Or(x, f, _), ExprV::Or(y, g, _)) => same_expr(*x, *y) && same_expr(*f, *g),
        (ExprV::Assert(c, x, _), ExprV::Assert(d, y, _)) => same_expr(*c, *d) && same_expr(*x, *y),
        (ExprV::With(w, x, _), ExprV::With(v, y, _)) => same_expr(*w, *v) && same_expr(*x, *y),
        (ExprV::LetIn(bs, x, _), ExprV::LetIn(cs, y, _)) => same_binds(bs, cs) && same_expr(*x, *y),
        (ExprV::FnSimple(n, x, _), ExprV::FnSimple(m, y, _)) => same_ident(n, m) && same_expr(
            *x,
            *y,
        ),
        (ExprV::FnFormals(fs, e, _, x, _), ExprV::FnFormals(gs, f, _, y, _)) => same_formals(fs, gs)
            && e is Some && f is Some && same_expr(*x, *y),
        (ExprV::FnApp(f, x, _), ExprV::FnApp(g, y, _)) => same_expr(*f, *g) && same_expr(*x, *y),
        (ExprV::Error(s), ExprV::Error(t)) => s == t,
        (ExprV::Trap(s), ExprV::Trap(t)) => s == t,
        _ => false,
    }
}

/// Two sequences of expressions are equal one by one.
pub open spec fn same_exprs(a: Seq<ExprV>, b: Seq<ExprV>) -> bool
    decreases a,
{
    if a.len() != b.len() {
        false
    } else if a.len() == 0 {
        true
    } else {
        proof {
            assert(decreases_to!(a => a.drop_last()));
        }
        same_exprs(a.drop_last(), b.drop_last()) && same_expr(a.last(), b.last())
    }
}

/// Two string fragments are equal.
pub open spec fn same_fragment(a: FragmentV, b: FragmentV) -> bool
    decreases a,
{
    match (a, b) {
        (FragmentV::Literal(x, _), FragmentV::Literal(y, _)) => x == y,
        (FragmentV::Interpolation(x, _), FragmentV::Interpolation(y, _)) => same_expr(*x, *y),
        _ => false,
    }
}

/// Two sequences of string fragments are equal one by one.
pub open spec fn same_fragments(a: Seq<FragmentV>, b: Seq<FragmentV>) -> bool
    decreases a,
{
    if a.len() != b.len() {
        false
    } else if a.len() == 0 {
        true
    } else {
        proof {
            assert(decreases_to!(a => a.drop_last()));
        }
        same_fragments(a.drop_last(), b.drop_last()) && same_fragment(a.last(), b.last())
    }
}

/// Two bindings are equal.
pub open spec fn same_bind(a: BindV, b: BindV) -> bool
    decreases a,
{
    match (a, b) {
        (BindV::Simple(c, p, x, _), BindV::Simple(d, q, y, _)) => same_path(p, q) && same_expr(
            *x,
            *y,
        ) && same_comment_opt(c, d),
        (BindV::Inherit(n, _), BindV::Inherit(m, _)) => same_idents(n, m),
        (BindV::InheritExpr(x, n, _), BindV::InheritExpr(y, m, _)) => same_expr(*x, *y)
            && same_idents(n, m),
        _ => false,
    }
}

/// Two sequences of bindings are equal one by one.
pub open spec fn same_binds(a: Seq<BindV>, b: Seq<BindV>) -> bool
    decreases a,
{
    if a.len() != b.len() {
        false
    } else if a.len() == 0 {
        true
    } else {
        proof {
            assert(decreases_to!(a => a.drop_last()));
        }
        same_binds(a.drop_last(), b.drop_last()) && same_bind(a.last(), b.last())
    }
}

/// Two attribute paths are equal when their segments are.
pub open spec fn same_path(a: AttrPathV, b: AttrPathV) -> bool
    decreases a,
{
    same_segments(a.segments, b.segments)
}

/// Two segments of attribute paths are equal.
pub open spec fn same_segment(a: AttrSegmentV, b: AttrSegmentV) -> bool
    decreases a,
{
    match (a, b) {
        (AttrSegmentV::Ident(x), AttrSegmentV::Ident(y)) => same_ident(x, y),
        (AttrSegmentV::Interpolation(x, _), AttrSegmentV::Interpolation(y, _)) => same_expr(*x, *y),
        (AttrSegmentV::String(x, _), AttrSegmentV::String(y, _)) => same_fragments(x, y),
        _ => false,
    }
}

/// Two sequences of segments are equal one by one.
pub open spec fn same_segments(a: Seq<AttrSegmentV>, b: Seq<AttrSegmentV>) -> bool
    decreases a,
{
    if a.len() != b.len() {
        false
    } else if a.len() == 0 {
        true
    } else {
        proof {
            assert(decreases_to!(a => a.drop_last()));
        }
        same_segments(a.drop_last(), b.drop_last()) && same_segment(a.last(), b.last())
    }
}

/// Two formal arguments are equal when their names and defaults are.
pub open spec fn same_formal(a: FormalV, b: FormalV) -> bool
    decreases a,
{
    same_ident(a.name, b.name) && match (a.default, b.default) {
        (None, None) => true,
        (Some(x), Some(y)) => same_expr(*x, *y),
        _ => false,
    }
}

/// Two sequences of formal arguments are equal one by one.
pub open spec fn same_formals(a: Seq<FormalV>, b: Seq<FormalV>) -> bool
    decreases a,
{
    if a.len() != b.len() {
        false
    } else if a.len() == 0 {
        true
    } else {
        proof {
            assert(decreases_to!(a => a.drop_last()));
        }
        same_formals(a.drop_last(), b.drop_last()) && same_formal(a.last(), b.last())
    }
}

/// Compares two vectors one by one.
fn same_expr_vecs(a: &Vec<Expr>, b: &Vec<Expr>) -> (r: bool)
    ensures
        r == same_exprs(exprs_view(a@), exprs_view(b@)),
    decreases a,
{
    if a.len() != b.len() {
        return false;
    }
    let ghost va = exprs_view(a@);
    let ghost vb = exprs_view(b@);
    let mut r = true;
    let mut i: usize = 0;
    while i < a.len()
        invariant
            a@.len() == b@.len(),
            va == exprs_view(a@),
            vb == exprs_view(b@),
            i <= a@.len(),
            r == same_exprs(va.take(i as int), vb.take(i as int)),
        decreases a.len() - i,
    {
        proof {
            assert(va.take(i + 1).drop_last() =~= va.take(i as int));
            assert(vb.take(i + 1).drop_last() =~= vb.take(i as int));
        }
        r = r && a[i].same(&b[i]);
        i = i + 1;
    }
    proof {
        assert(va.take(a@.len() as int) =~= va);
        assert(vb.take(a@.len() as int) =~= vb);
    }
    r
}

/// Compares two vectors one by one.
fn same_bind_vecs(a: &Vec<Bind>, b: &Vec<Bind>) -> (r: bool)
    ensures
        r == same_binds(binds_view(a@), binds_view(b@)),
    decreases a,
{
    if a.len() != b.len() {
        return false;
    }
    let ghost va = binds_view(a@);
    let ghost vb = binds_view(b@);
    let mut r = true;
    let mut i: usize = 0;
    while i < a.len()
        invariant
            a@.len() == b@.len(),
            va == binds_view(a@),
            vb == binds_view(b@),
            i <= a@.len(),
            r == same_binds(va.take(i as int), vb.take(i as int)),
        decreases a.len() - i,
    {
        proof {
            assert(va.take(i + 1).drop_last() =~= va.take(i as int));
            assert(vb.take(i + 1).drop_last() =~= vb.take(i as int));
        }
        r = r && a[i].same(&b[i]);
        i = i + 1;
    }
    proof {
        assert(va.take(a@.len() as int) =~= va);
        assert(vb.take(a@.len() as int) =~= vb);
    }
    r
}

/// Compares two vectors one by one.
fn same_fragment_vecs(a: &Vec<StringFragment>, b: &Vec<StringFragment>) -> (r: bool)
    ensures
        r == same_fragments(fragments_view(a@), fragments_view(b@)),
    decreases a,
{
    if a.len() != b.len() {
        return false;
    }
    let ghost va = fragments_view(a@);
    let ghost vb = fragments_view(b@);
    let mut r = true;
    let mut i: usize = 0;
    while i < a.len()
        invariant
            a@.len() == b@.len(),
            va == fragments_view(a@),
            vb == fragments_view(b@),
            i <= a@.len(),
            r == same_fragments(va.take(i as int), vb.take(i as int)),
        decreases a.len() - i,
    {
        proof {
            assert(va.take(i + 1).drop_last() =~= va.take(i as int));
            assert(vb.take(i + 1).drop_last() =~= vb.take(i as int));
        }
        r = r && a[i].same(&b[i]);
        i = i + 1;
    }
    proof {
        assert(va.take(a@.len() as int) =~= va);
        assert(vb.take(a@.len() as int) =~= vb);
    }
    r
}

/// Compares two vectors one by one.
fn same_segment_vecs(a: &Vec<AttrSegment>, b: &Vec<AttrSegment>) -> (r: bool)
    ensures
        r == same_segments(segments_view(a@), segments_view(b@)),
    decreases a,
{
    if a.len() != b.len() {
        return false;
    }
    let ghost va = segments_view(a@);
    let ghost vb = segments_view(b@);
    let mut r = true;
    let mut i: usize = 0;
    while i < a.len()
        invariant
            a@.len() == b@.len(),
            va == segments_view(a@),
            vb == segments_view(b@),
            i <= a@.len(),
            r == same_segments(va.take(i as int), vb.take(i as int)),
        decreases a.len() - i,
    {
        proof {
            assert(va.take(i + 1).drop_last() =~= va.take(i as int));
            assert(vb.take(i + 1).drop_last() =~= vb.take(i as int));
        }
        r = r && a[i].same(&b[i]);
        i = i + 1;
    }
    proof {
        assert(va.take(a@.len() as int) =~= va);
        assert(vb.take(a@.len() as int) =~= vb);
    }
    r
}

/// Compares two vectors one by one.
fn same_formal_vecs(a: &Vec<Formal>, b: &Vec<Formal>) -> (r: bool)
    ensures
        r == same_formals(formals_view(a@), formals_view(b@)),
    decreases a,
{
    if a.len() != b.len() {
        return false;
    }
    let ghost va = formals_view(a@);
    let ghost vb = formals_view(b@);
    let mut r = true;
    let mut i: usize = 0;
    while i < a.len()
        invariant
            a@.len() == b@.len(),
            va == formals_view(a@),
            vb == formals_view(b@),
            i <= a@.len(),
            r == same_formals(va.take(i as int), vb.take(i as int)),
        decreases a.len() - i,
    {
        proof {
            assert(va.take(i + 1).drop_last() =~= va.take(i as int));
            assert(vb.take(i + 1).drop_last() =~= vb.take(i as int));
        }
        r = r && a[i].same(&b[i]);
        i = i + 1;
    }
    proof {
        assert(va.take(a@.len() as int) =~= va);
        assert(vb.take(a@.len() as int) =~= vb);
    }
    r
}

/// Compares two vectors one by one.
fn same_ident_vecs(a: &Vec<Ident>, b: &Vec<Ident>) -> (r: bool)
    ensures
        r == same_idents(idents_view(a@), idents_view(b@)),
    decreases a,
{
    if a.len() != b.len() {
        return false;
    }
    let ghost va = idents_view(a@);
    let ghost vb = idents_view(b@);
    let mut r = true;
    let mut i: usize = 0;
    while i < a.len()
        invariant
            a@.len() == b@.len(),
            va == idents_view(a@),
            vb == idents_view(b@),
            i <= a@.len(),
            r == same_idents(va.take(i as int), vb.take(i as int)),
        decreases a.len() - i,
    {
        proof {
            assert(va.take(i + 1).drop_last() =~= va.take(i as int));
            assert(vb.take(i + 1).drop_last() =~= vb.take(i as int));
        }
        r = r && a[i].same(&b[i]);
        i = i + 1;
    }
    proof {
        assert(va.take(a@.len() as int) =~= va);
        assert(vb.take(a@.len() as int) =~= vb);
    }
    r
}

impl ExprParen {
    /// Whether the two parenthesized expressions are equal: their expressions are.
    pub fn same(&self, other: &ExprParen) -> (r: bool)
        ensures
            r == same_expr(self@, other@),
        decreases self,
    {
        self.expr.same(&other.expr)
    }
}

impl PartialEq for ExprParen {
    fn eq(&self, other: &Self) -> (r: bool) {
        self.same(other)
    }
}

impl PartialEqSpecImpl for ExprParen {
    open spec fn obeys_eq_spec() -> bool {
        true
    }

    open spec fn eq_spec(&self, other: &ExprParen) -> bool {
        same_expr(self@, other@)
    }
}

impl ExprInterpolation {
    /// Whether the two interpolations are equal: their expressions are.
    pub fn same(&self, other: &ExprInterpolation) -> (r: bool)
        ensures
            r == same_expr(self@, other@),
        decreases self,
    {
        self.inner.same(&other.inner)
    }
}

impl PartialEq for ExprInterpolation {
    fn eq(&self, other: &Self) -> (r: bool) {
        self.same(other)
    }
}

impl PartialEqSpecImpl for ExprInterpolation {
    open spec fn obeys_eq_spec() -> bool {
        true
    }

    open spec fn eq_spec(&self, other: &ExprInterpolation) -> bool {
        same_expr(self@, other@)
    }
}

impl ExprList {
    /// Whether the two lists are equal: their elements are, one by one.
    pub fn same(&self, other: &ExprList) -> (r: bool)
        ensures
            r == same_expr(self@, other@),
        decreases self,
    {
        same_expr_vecs(&self.elems, &other.elems)
    }
}

impl PartialEq for ExprList {
    fn eq(&self, other: &Self) -> (r: bool) {
        self.same(other)
    }
}

impl PartialEqSpecImpl for ExprList {
    open spec fn obeys_eq_spec() -> bool {
        true
    }

    open spec fn eq_spec(&self, other: &ExprList) -> bool {
        same_expr(self@, other@)
    }
}

impl ExprSet {
    /// Whether the two attribute sets are equal: their bindings are, one by one.
    pub fn same(&self, other: &ExprSet) -> (r: bool)
        ensures
            r == same_expr(self@, other@),
        decreases self,
    {
        same_bind_vecs(&self.binds, &other.binds)
    }
}

impl PartialEq for ExprSet {
    fn eq(&self, other: &Self) -> (r: bool) {
        self.same(other)
    }
}

impl PartialEqSpecImpl for ExprSet {
    open spec fn obeys_eq_spec() -> bool {
        true
    }

    open spec fn eq_spec(&self, other: &ExprSet) -> bool {
        same_expr(self@, other@)
    }
}

impl ExprString {
    /// Whether the two strings are equal: their fragments are, one by one.
    pub fn same(&self, other: &ExprString) -> (r: bool)
        ensures
            r == same_expr(self@, other@),
        decreases self,
    {
        same_fragment_vecs(&self.0, &other.0)
    }
}

impl PartialEq for ExprString {
    fn eq(&self, other: &Self) -> (r: bool) {
        self.same(other)
    }
}

impl PartialEqSpecImpl for ExprString {
    open spec fn obeys_eq_spec() -> bool {
        true
    }

    open spec fn eq_spec(&self, other: &ExprString) -> bool {
        same_expr(self@, other@)
    }
}

impl ExprUnary {
    /// Whether the two unary expressions are equal: operators and operands.
    pub fn same(&self, other: &ExprUnary) -> (r: bool)
        ensures
            r == same_expr(self@, other@),
        decreases self,
    {
        self.op == other.op && self.expr.same(&other.expr)
    }
}

impl PartialEq for ExprUnary {
    fn eq(&self, other: &Self) -> (r: bool) {
        self.same(other)
    }
}

impl PartialEqSpecImpl for ExprUnary {
    open spec fn obeys_eq_spec() -> bool {
        true
    }

    open spec fn eq_spec(&self, other: &ExprUnary) -> bool {
        same_expr(self@, other@)
    }
}

impl ExprBinary {
    /// Whether the two binary expressions are equal: operators and both operands.
    pub fn same(&self, other: &ExprBinary) -> (r: bool)
        ensures
            r == same_expr(self@, other@),
        decreases self,
    {
        self.op == other.op && self.lhs.same(&other.lhs) && self.rhs.same(&other.rhs)
    }
}

impl PartialEq for ExprBinary {
    fn eq(&self, other: &Self) -> (r: bool) {
        self.same(other)
    }
}

impl PartialEqSpecImpl for ExprBinary {
    open spec fn obeys_eq_spec() -> bool {
        true
    }

    open spec fn eq_spec(&self, other: &ExprBinary) -> bool {
        same_expr(self@, other@)
    }
}

impl ExprLet {
    /// Whether the two `let` sets are equal: their bindings are, one by one.
    pub fn same(&self, other: &ExprLet) -> (r: bool)
        ensures
            r == same_expr(self@, other@),
        decreases self,
    {
        same_bind_vecs(&self.binds, &other.binds)
    }
}

impl PartialEq for ExprLet {
    fn eq(&self, other: &Self) -> (r: bool) {
        self.same(other)
    }
}

impl PartialEqSpecImpl for ExprLet {
    open spec fn obeys_eq_spec() -> bool {
        true
    }

    open spec fn eq_spec(&self, other: &ExprLet) -> bool {
        same_expr(self@, other@)
    }
}

impl ExprRec {
    /// Whether the two recursive sets are equal: their bindings are, one by one.
    pub fn same(&self, other: &ExprRec) -> (r: bool)
        ensures
            r == same_expr(self@, other@),
        decreases self,
    {
        same_bind_vecs(&self.binds, &other.binds)
    }
}

impl PartialEq for ExprRec {
    fn eq(&self, other: &Self) -> (r: bool) {
        self.same(other)
    }
}

impl PartialEqSpecImpl for ExprRec {
    open spec fn obeys_eq_spec() -> bool {
        true
    }

    open spec fn eq_spec(&self, other: &ExprRec) -> bool {
        same_expr(self@, other@)
    }
}

impl ExprProj {
    /// Whether the two projections are equal: their bases and attribute paths are; the fallbacks
    /// are not compared.
    pub fn same(&self, other: &ExprProj) -> (r: bool)
        ensures
            r == same_expr(self@, other@),
        decreases self,
    {
        self.base.same(&other.base) && self.attr.same(&other.attr)
    }
}

impl PartialEq for ExprProj {
    fn eq(&self, other: &Self) -> (r: bool) {
        self.same(other)
    }
}

impl PartialEqSpecImpl for ExprProj {
    open spec fn obeys_eq_spec() -> bool {
        true
    }

    open spec fn eq_spec(&self, other: &ExprProj) -> bool {
        same_expr(self@, other@)
    }
}

impl ExprIf {
    /// Whether the two conditionals are equal: conditions, bodies and fallbacks.
    pub fn same(&self, other: &ExprIf) -> (r: bool)
        ensures
            r == same_expr(self@, other@),
        decreases self,
    {
        self.cond.same(&other.cond) && self.body.same(&other.body) && self.fallback.same(
            &other.fallback,
        )
    }
}

impl PartialEq for ExprIf {
    fn eq(&self, other: &Self) -> (r: bool) {
        self.same(other)
    }
}

impl PartialEqSpecImpl for ExprIf {
    open spec fn obeys_eq_spec() -> bool {
        true
    }

    open spec fn eq_spec(&self, other: &ExprIf) -> bool {
        same_expr(self@, other@)
    }
}

impl ExprOr {
    /// Whether the two `or` expressions are equal: both sides are.
    pub fn same(&self, other: &ExprOr) -> (r: bool)
        ensures
            r == same_expr(self@, other@),
        decreases self,
    {
        self.expr.same(&other.expr) && self.fallback.same(&other.fallback)
    }
}

impl PartialEq for ExprOr {
    fn eq(&self, other: &Self) -> (r: bool) {
        self.same(other)
    }
}

impl PartialEqSpecImpl for ExprOr {
    open spec fn obeys_eq_spec() -> bool {
        true
    }

    open spec fn eq_spec(&self, other: &ExprOr) -> bool {
        same_expr(self@, other@)
    }
}

impl ExprAssert {
    /// Whether the two assertions are equal: conditions and bodies.
    pub fn same(&self, other: &ExprAssert) -> (r: bool)
        ensures
            r == same_expr(self@, other@),
        decreases self,
    {
        self.cond.same(&other.cond) && self.expr.same(&other.expr)
    }
}

impl PartialEq for ExprAssert {
    fn eq(&self, other: &Self) -> (r: bool) {
        self.same(other)
    }
}

impl PartialEqSpecImpl for ExprAssert {
    open spec fn obeys_eq_spec() -> bool {
        true
    }

    open spec fn eq_spec(&self, other: &ExprAssert) -> bool {
        same_expr(self@, other@)
    }
}

impl ExprWith {
    /// Whether the two `with` expressions are equal: scopes and bodies.
    pub fn same(&self, other: &ExprWith) -> (r: bool)
        ensures
            r == same_expr(self@, other@),
        decreases self,
    {
        self.with.same(&other.with) && self.expr.same(&other.expr)
    }
}

impl PartialEq for ExprWith {
    fn eq(&self, other: &Self) -> (r: bool) {
        self.same(other)
    }
}

impl PartialEqSpecImpl for ExprWith {
    open spec fn obeys_eq_spec() -> bool {
        true
    }

    open spec fn eq_spec(&self, other: &ExprWith) -> bool {
        same_expr(self@, other@)
    }
}

impl ExprLetIn {
    /// Whether the two `let ... in` expressions are equal: bindings and bodies.
    pub fn same(&self, other: &ExprLetIn) -> (r: bool)
        ensures
            r == same_expr(self@, other@),
        decreases self,
    {
        same_bind_vecs(&self.binds, &other.binds) && self.body.same(&other.body)
    }
}

impl PartialEq for ExprLetIn {
    fn eq(&self, other: &Self) -> (r: bool) {
        self.same(other)
    }
}

impl PartialEqSpecImpl for ExprLetIn {
    open spec fn obeys_eq_spec() -> bool {
        true
    }

    open spec fn eq_spec(&self, other: &ExprLetIn) -> bool {
        same_expr(self@, other@)
    }
}

impl FnDeclSimple {
    /// Whether the two declarations are equal: names and bodies.
    pub fn same(&self, other: &FnDeclSimple) -> (r: bool)
        ensures
            r == same_expr(self@, other@),
        decreases self,
    {
        self.name.same(&other.name) && self.body.same(&other.body)
    }
}

impl PartialEq for FnDeclSimple {
    fn eq(&self, other: &Self) -> (r: bool) {
        self.same(other)
    }
}

impl PartialEqSpecImpl for FnDeclSimple {
    open spec fn obeys_eq_spec() -> bool {
        true
    }

    open spec fn eq_spec(&self, other: &FnDeclSimple) -> bool {
        same_expr(self@, other@)
    }
}

impl FnDeclFormals {
    /// Whether the two declarations are equal: the formal arguments and bodies are, and both have
    /// an ellipsis; the names bound to the whole argument are not compared.
    pub fn same(&self, other: &FnDeclFormals) -> (r: bool)
        ensures
            r == same_expr(self@, other@),
        decreases self,
    {
        same_formal_vecs(&self.formals, &other.formals) && self.ellipsis.is_some()
            && other.ellipsis.is_some()
            && self.body.same(&other.body)
    }
}

impl PartialEq for FnDeclFormals {
    fn eq(&self, other: &Self) -> (r: bool) {
        self.same(other)
    }
}

impl PartialEqSpecImpl for FnDeclFormals {
    open spec fn obeys_eq_spec() -> bool {
        true
    }

    open spec fn eq_spec(&self, other: &FnDeclFormals) -> bool {
        same_expr(self@, other@)
    }
}

impl ExprFnApp {
    /// Whether the two applications are equal: functions and arguments.
    pub fn same(&self, other: &ExprFnApp) -> (r: bool)
        ensures
            r == same_expr(self@, other@),
        decreases self,
    {
        self.function.same(&other.function) && self.argument.same(&other.argument)
    }
}

impl PartialEq for ExprFnApp {
    fn eq(&self, other: &Self) -> (r: bool) {
        self.same(other)
    }
}

impl PartialEqSpecImpl for ExprFnApp {
    open spec fn obeys_eq_spec() -> bool {
        true
    }

    open spec fn eq_spec(&self, other: &ExprFnApp) -> bool {
        same_expr(self@, other@)
    }
}

impl ExprFnDecl {
    /// Whether the two declarations are equal: of the same form, and equal in it.
    pub fn same(&self, other: &ExprFnDecl) -> (r: bool)
        ensures
            r == same_expr(self@, other@),
        decreases self,
    {
        proof {
            lemma_seq_views(Expr::FnDecl(*self));
            lemma_seq_views(Expr::FnDecl(*other));
        }
        match (self, other) {
            (ExprFnDecl::Simple(a), ExprFnDecl::Simple(b)) => a.same(b),
            (ExprFnDecl::Formals(a), ExprFnDecl::Formals(b)) => a.same(b),
            _ => false,
        }
    }
}

impl PartialEq for ExprFnDecl {
    fn eq(&self, other: &Self) -> (r: bool) {
        self.same(other)
    }
}

impl PartialEqSpecImpl for ExprFnDecl {
    open spec fn obeys_eq_spec() -> bool {
        true
    }

    open spec fn eq_spec(&self, other: &ExprFnDecl) -> bool {
        same_expr(self@, other@)
    }
}

impl Formal {
    /// Whether the two formal arguments are equal: names and defaults.
    pub fn same(&self, other: &Formal) -> (r: bool)
        ensures
            r == same_formal(self@, other@),
        decreases self,
    {
        self.name.same(&other.name) && match (&self.default, &other.default) {
            (None, None) => true,
            (Some(x), Some(y)) => x.same(y),
            _ => false,
        }
    }
}

impl PartialEq for Formal {
    fn eq(&self, other: &Self) -> (r: bool) {
        self.same(other)
    }
}

impl PartialEqSpecImpl for Formal {
    open spec fn obeys_eq_spec() -> bool {
        true
    }

    open spec fn eq_spec(&self, other: &Formal) -> bool {
        same_formal(self@, other@)
    }
}

impl BindSimple {
    /// Whether the two bindings are equal: attribute paths, values and doc comments.
    pub fn same(&self, other: &BindSimple) -> (r: bool)
        ensures
            r == same_bind(self@, other@),
        decreases self,
    {
        self.attr.same(&other.attr) && self.expr.same(&other.expr) && match (
            &self.comment,
            &other.comment,
        ) {
            (None, None) => true,
            (Some(x), Some(y)) => x.same(y),
            _ => false,
        }
    }
}

impl PartialEq for BindSimple {
    fn eq(&self, other: &Self) -> (r: bool) {
        self.same(other)
    }
}

impl PartialEqSpecImpl for BindSimple {
    open spec fn obeys_eq_spec() -> bool {
        true
    }

    open spec fn eq_spec(&self, other: &BindSimple) -> bool {
        same_bind(self@, other@)
    }
}

impl BindInherit {
    /// Whether the two bindings are equal: their names are.
    pub fn same(&self, other: &BindInherit) -> (r: bool)
        ensures
            r == same_bind(self@, other@),
        decreases self,
    {
        same_ident_vecs(&self.names, &other.names)
    }
}

impl PartialEq for BindInherit {
    fn eq(&self, other: &Self) -> (r: bool) {
        self.same(other)
    }
}

impl PartialEqSpecImpl for BindInherit {
    open spec fn obeys_eq_spec() -> bool {
        true
    }

    open spec fn eq_spec(&self, other: &BindInherit) -> bool {
        same_bind(self@, other@)
    }
}

impl BindInheritExpr {
    /// Whether the two bindings are equal: scopes and names.
    pub fn same(&self, other: &BindInheritExpr) -> (r: bool)
        ensures
            r == same_bind(self@, other@),
        decreases self,
    {
        self.expr.same(&other.expr) && same_ident_vecs(&self.names, &other.names)
    }
}

impl PartialEq for BindInheritExpr {
    fn eq(&self, other: &Self) -> (r: bool) {
        self.same(other)
    }
}

impl PartialEqSpecImpl for BindInheritExpr {
    open spec fn obeys_eq_spec() -> bool {
        true
    }

    open spec fn eq_spec(&self, other: &BindInheritExpr) -> bool {
        same_bind(self@, other@)
    }
}

impl Bind {
    /// Whether the two bindings are equal: of the same form, and equal in it.
    pub fn same(&self, other: &Bind) -> (r: bool)
        ensures
            r == same_bind(self@, other@),
        decreases self,
    {
        match (self, other) {
            (Bind::Simple(a), Bind::Simple(b)) => a.same(b),
            (Bind::Inherit(a), Bind::Inherit(b)) => a.same(b),
            (Bind::InheritExpr(a), Bind::InheritExpr(b)) => a.same(b),
            _ => false,
        }
    }
}

impl PartialEq for Bind {
    fn eq(&self, other: &Self) -> (r: bool) {
        self.same(other)
    }
}

impl PartialEqSpecImpl for Bind {
    open spec fn obeys_eq_spec() -> bool {
        true
    }

    open spec fn eq_spec(&self, other: &Bind) -> bool {
        same_bind(self@, other@)
    }
}

impl AttrPath {
    /// Whether the two attribute paths are equal: their segments are, one by one.
    pub fn same(&self, other: &AttrPath) -> (r: bool)
        ensures
            r == same_path(self@, other@),
        decreases self,
    {
        proof {
            lemma_attr_path_view(*self);
            lemma_attr_path_view(*other);
        }
        same_segment_vecs(&self.0, &other.0)
    }
}

impl PartialEq for AttrPath {
    fn eq(&self, other: &Self) -> (r: bool) {
        self.same(other)
    }
}

impl PartialEqSpecImpl for AttrPath {
    open spec fn obeys_eq_spec() -> bool {
        true
    }

    open spec fn eq_spec(&self, other: &AttrPath) -> bool {
        same_path(self@, other@)
    }
}

impl AttrSegment {
    /// Whether the two segments are equal: of the same form, and equal in it.
    pub fn same(&self, other: &AttrSegment) -> (r: bool)
        ensures
            r == same_segment(self@, other@),
        decreases self,
    {
        proof {
            lemma_segment_view(*self);
            lemma_segment_view(*other);
        }
        match (self, other) {
            (AttrSegment::Ident(a), AttrSegment::Ident(b)) => a.same(b),
            (AttrSegment::Interpolation(a), AttrSegment::Interpolation(b)) => a.same(b),
            (AttrSegment::String(a), AttrSegment::String(b)) => a.same(b),
            _ => false,
        }
    }
}

impl PartialEq for AttrSegment {
    fn eq(&self, other: &Self) -> (r: bool) {
        self.same(other)
    }
}

impl PartialEqSpecImpl for AttrSegment {
    open spec fn obeys_eq_spec() -> bool {
        true
    }

    open spec fn eq_spec(&self, other: &AttrSegment) -> bool {
        same_segment(self@, other@)
    }
}

impl StringFragment {
    /// Whether the two fragments are equal: the same text, or equal interpolations.
    pub fn same(&self, other: &StringFragment) -> (r: bool)
        ensures
            r == same_fragment(self@, other@),
        decreases self,
    {
        match (self, other) {
            (StringFragment::Literal(a, _), StringFragment::Literal(b, _)) => *a == *b,
            (StringFragment::Interpolation(a), StringFragment::Interpolation(b)) => a.same(b),
            _ => false,
        }
    }
}

impl PartialEq for StringFragment {
    fn eq(&self, other: &Self) -> (r: bool) {
        self.same(other)
    }
}

impl PartialEqSpecImpl for StringFragment {
    open spec fn obeys_eq_spec() -> bool {
        true
    }

    open spec fn eq_spec(&self, other: &StringFragment) -> bool {
        same_fragment(self@, other@)
    }
}

impl Expr {
    /// Whether the two expressions are equal: of the same kind, and equal under the rules of that
    /// kind; spans are not compared, but for error and trap nodes.
    pub fn same(&self, other: &Expr) -> (r: bool)
        ensures
            r == same_expr(self@, other@),
        decreases self,
    {
        proof {
            lemma_seq_views(*self);
            lemma_seq_views(*other);
        }
        match (self, other) {
            (Expr::Paren(a), Expr::Paren(b)) => a.same(b),
            (Expr::Ident(a), Expr::Ident(b)) => a.same(b),
            (Expr::Interpolation(a), Expr::Interpolation(b)) => a.same(b),
            (Expr::Literal(a), Expr::Literal(b)) => a.same(b),
            (Expr::List(a), Expr::List(b)) => a.same(b),
            (Expr::String(a), Expr::String(b)) => a.same(b),
            (Expr::AttrSet(a), Expr::AttrSet(b)) => a.same(b),
            (Expr::Unary(a), Expr::Unary(b)) => a.same(b),
            (Expr::Binary(a), Expr::Binary(b)) => a.same(b),
            (Expr::Let(a), Expr::Let(b)) => a.same(b),
            (Expr::Rec(a), Expr::Rec(b)) => a.same(b),
            (Expr::Proj(a), Expr::Proj(b)) => a.same(b),
            (Expr::If(a), Expr::If(b)) => a.same(b),
            (Expr::Or(a), Expr::Or(b)) => a.same(b),
            (Expr::Assert(a), Expr::Assert(b)) => a.same(b),
            (Expr::With(a), Expr::With(b)) => a.same(b),
            (Expr::LetIn(a), Expr::LetIn(b)) => a.same(b),
            (Expr::FnDecl(a), Expr::FnDecl(b)) => a.same(b),
            (Expr::FnApp(a), Expr::FnApp(b)) => a.same(b),
            (Expr::Error(a), Expr::Error(b)) => *a == *b,
            (Expr::Trap(a), Expr::Trap(b)) => *a == *b,
            _ => false,
        }
    }
}

impl PartialEq for Expr {
    fn eq(&self, other: &Self) -> (r: bool) {
        self.same(other)
    }
}

impl PartialEqSpecImpl for Expr {
    open spec fn obeys_eq_spec() -> bool {
        true
    }

    open spec fn eq_spec(&self, other: &Expr) -> bool {
        same_expr(self@, other@)
    }
}

impl SourceFile {
    /// Whether the two source files are equal: doc comments and expressions.
    pub fn same(&self, other: &SourceFile) -> (r: bool)
        ensures
            r == (same_comment_opt(self@.comment, other@.comment) && same_expr(
                self@.expr,
                other@.expr,
            )),
    {
        let c = match (&self.comment, &other.comment) {
            (None, None) => true,
            (Some(x), Some(y)) => x.same(y),
            _ => false,
        };
        c && self.expr.same(&other.expr)
    }
}

impl PartialEq for SourceFile {
    fn eq(&self, other: &Self) -> (r: bool) {
        self.same(other)
    }
}

impl PartialEqSpecImpl for SourceFile {
    open spec fn obeys_eq_spec() -> bool {
        true
    }

    open spec fn eq_spec(&self, other: &SourceFile) -> bool {
        same_comment_opt(self@.comment, other@.comment) && same_expr(self@.expr, other@.expr)
    }
}

impl Ident {
    /// Whether the two identifiers are equal: their names are.
    pub fn same(&self, other: &Ident) -> (r: bool)
        ensures
            r == same_ident(self@, other@),
    {
        self.name == other.name
    }
}

impl PartialEq for Ident {
    fn eq(&self, other: &Self) -> (r: bool) {
        self.same(other)
    }
}

impl PartialEqSpecImpl for Ident {
    open spec fn obeys_eq_spec() -> bool {
        true
    }

    open spec fn eq_spec(&self, other: &Ident) -> bool {
        same_ident(self@, other@)
    }
}

impl Comment {
    /// Whether the two comments are equal: their texts are.
    pub fn same(&self, other: &Comment) -> (r: bool)
        ensures
            r == same_comment(self@, other@),
    {
        self.text == other.text
    }
}

impl PartialEq for Comment {
    fn eq(&self, other: &Self) -> (r: bool) {
        self.same(other)
    }
}

impl PartialEqSpecImpl for Comment {
    open spec fn obeys_eq_spec() -> bool {
        true
    }

    open spec fn eq_spec(&self, other: &Comment) -> bool {
        same_comment(self@, other@)
    }
}

impl Literal {
    /// Whether the two literals are equal: of the same kind with the same value.
    pub fn same(&self, other: &Literal) -> (r: bool)
        ensures
            r == same_literal(self@, other@),
    {
        match (self, other) {
            (Literal::Null(_), Literal::Null(_)) => true,
            (Literal::Boolean(a, _), Literal::Boolean(b, _)) => *a == *b,
            (Literal::Float(a, _), Literal::Float(b, _)) => *a == *b,
            (Literal::Integer(a, _), Literal::Integer(b, _)) => *a == *b,
            (Literal::Path(a, _), Literal::Path(b, _)) => *a == *b,
            (Literal::PathTemplate(a, _), Literal::PathTemplate(b, _)) => *a == *b,
            (Literal::Uri(a, _), Literal::Uri(b, _)) => *a == *b,
            _ => false,
        }
    }
}

impl PartialEq for Literal {
    fn eq(&self, other: &Self) -> (r: bool) {
        self.same(other)
    }
}

impl PartialEqSpecImpl for Literal {
    open spec fn obeys_eq_spec() -> bool {
        true
    }

    open spec fn eq_spec(&self, other: &Literal) -> bool {
        same_literal(self@, other@)
    }
}

/// Equality of expressions is symmetric.
pub proof fn lemma_same_expr_sym(a: ExprV, b: ExprV)
    ensures
        same_expr(a, b) == same_expr(b, a),
    decreases a,
{
    match (a, b) {
        (ExprV::Paren(a0, _), ExprV::Paren(b0, _)) => {
            lemma_same_expr_sym(*a0, *b0);
        },
        (ExprV::Interpolation(a0, _), ExprV::Interpolation(b0, _)) => {
            lemma_same_expr_sym(*a0, *b0);
        },
        (ExprV::List(a0, _), ExprV::List(b0, _)) => {
            lemma_same_exprs_sym(a0, b0);
        },
        (ExprV::String(a0, _), ExprV::String(b0, _)) => {
            lemma_same_fragments_sym(a0, b0);
        },
        (ExprV::AttrSet(a0, _), ExprV::AttrSet(b0, _)) => {
            lemma_same_binds_sym(a0, b0);
        },
        (ExprV::Unary(_, a1, _), ExprV::Unary(_, b1, _)) => {
            lemma_same_expr_sym(*a1, *b1);
        },
        (ExprV::Binary(_, a1, a2, _), ExprV::Binary(_, b1, b2, _)) => {
            lemma_same_expr_sym(*a1, *b1);
            lemma_same_expr_sym(*a2, *b2);
        },
        (ExprV::Let(a0, _), ExprV::Let(b0, _)) => {
            lemma_same_binds_sym(a0, b0);
        },
        (ExprV::Rec(a0, _), ExprV::Rec(b0, _)) => {
            lemma_same_binds_sym(a0, b0);
        },
        (ExprV::Proj(a0, a1, _, _), ExprV::Proj(b0, b1, _, _)) => {
            lemma_same_expr_sym(*a0, *b0);
            lemma_same_path_sym(a1, b1);
        },
        (ExprV::If(a0, a1, a2, _), ExprV::If(b0, b1, b2, _)) => {
            lemma_same_expr_sym(*a0, *b0);
            lemma_same_expr_sym(*a1, *b1);
            lemma_same_expr_sym(*a2, *b2);
        },
        (ExprV::Or(a0, a1, _), ExprV::Or(b0, b1, _)) => {
            lemma_same_expr_sym(*a0, *b0);
            lemma_same_expr_sym(*a1, *b1);
        },
        (ExprV::Assert(a0, a1, _), ExprV::Assert(b0, b1, _)) => {
            lemma_same_expr_sym(*a0, *b0);
            lemma_same_expr_sym(*a1, *b1);
        },
        (ExprV::With(a0, a1, _), ExprV::With(b0, b1, _)) => {
            lemma_same_expr_sym(*a0, *b0);
            lemma_same_expr_sym(*a1, *b1);
        },
        (ExprV::LetIn(a0, a1, _), ExprV::LetIn(b0, b1, _)) => {
            lemma_same_binds_sym(a0, b0);
            lemma_same_expr_sym(*a1, *b1);
        },
        (ExprV::FnSimple(_, a1, _), ExprV::FnSimple(_, b1, _)) => {
            lemma_same_expr_sym(*a1, *b1);
        },
        (ExprV::FnFormals(a0, _, _, a3, _), ExprV::FnFormals(b0, _, _, b3, _)) => {
            lemma_same_formals_sym(a0, b0);
            lemma_same_expr_sym(*a3, *b3);
        },
        (ExprV::FnApp(a0, a1, _), ExprV::FnApp(b0, b1, _)) => {
            lemma_same_expr_sym(*a0, *b0);
            lemma_same_expr_sym(*a1, *b1);
        },
        _ => {},
    }
}

/// Equality of expressions is transitive.
pub proof fn lemma_same_expr_trans(a: ExprV, b: ExprV, c: ExprV)
    requires
        same_expr(a, b),
        same_expr(b, c),
    ensures
        same_expr(a, c),
    decreases a,
{
    match (a, b, c) {
        (ExprV::Paren(a0, _), ExprV::Paren(b0, _), ExprV::Paren(c0, _)) => {
            lemma_same_expr_trans(*a0, *b0, *c0);
        },
        (ExprV::Interpolation(a0, _), ExprV::Interpolation(b0, _), ExprV::Interpolation(c0, _)) => {
            lemma_same_expr_trans(*a0, *b0, *c0);
        },
        (ExprV::List(a0, _), ExprV::List(b0, _), ExprV::List(c0, _)) => {
            lemma_same_exprs_trans(a0, b0, c0);
        },
        (ExprV::String(a0, _), ExprV::String(b0, _), ExprV::String(c0, _)) => {
            lemma_same_fragments_trans(a0, b0, c0);
        },
        (ExprV::AttrSet(a0, _), ExprV::AttrSet(b0, _), ExprV::AttrSet(c0, _)) => {
            lemma_same_binds_trans(a0, b0, c0);
        },
        (ExprV::Unary(_, a1, _), ExprV::Unary(_, b1, _), ExprV::Unary(_, c1, _)) => {
            lemma_same_expr_trans(*a1, *b1, *c1);
        },
        (ExprV::Binary(_, a1, a2, _), ExprV::Binary(_, b1, b2, _), ExprV::Binary(_, c1, c2, _)) => {
            lemma_same_expr_trans(*a1, *b1, *c1);
            lemma_same_expr_trans(*a2, *b2, *c2);
        },
        (ExprV::Let(a0, _), ExprV::Let(b0, _), ExprV::Let(c0, _)) => {
            lemma_same_binds_trans(a0, b0, c0);
        },
        (ExprV::Rec(a0, _), ExprV::Rec(b0, _), ExprV::Rec(c0, _)) => {
            lemma_same_binds_trans(a0, b0, c0);
        },
        (ExprV::Proj(a0, a1, _, _), ExprV::Proj(b0, b1, _, _), ExprV::Proj(c0, c1, _, _)) => {
            lemma_same_expr_trans(*a0, *b0, *c0);
            lemma_same_path_trans(a1, b1, c1);
        },
        (ExprV::If(a0, a1, a2, _), ExprV::If(b0, b1, b2, _), ExprV::If(c0, c1, c2, _)) => {
            lemma_same_expr_trans(*a0, *b0, *c0);
            lemma_same_expr_trans(*a1, *b1, *c1);
            lemma_same_expr_trans(*a2, *b2, *c2);
        },
        (ExprV::Or(a0, a1, _), ExprV::Or(b0, b1, _), ExprV::Or(c0, c1, _)) => {
            lemma_same_expr_trans(*a0, *b0, *c0);
            lemma_same_expr_trans(*a1, *b1, *c1);
        },
        (ExprV::Assert(a0, a1, _), ExprV::Assert(b0, b1, _), ExprV::Assert(c0, c1, _)) => {
            lemma_same_expr_trans(*a0, *b0, *c0);
            lemma_same_expr_trans(*a1, *b1, *c1);
        },
        (ExprV::With(a0, a1, _), ExprV::With(b0, b1, _), ExprV::With(c0, c1, _)) => {
            lemma_same_expr_trans(*a0, *b0, *c0);
            lemma_same_expr_trans(*a1, *b1, *c1);
        },
        (ExprV::LetIn(a0, a1, _), ExprV::LetIn(b0, b1, _), ExprV::LetIn(c0, c1, _)) => {
            lemma_same_binds_trans(a0, b0, c0);
            lemma_same_expr_trans(*a1, *b1, *c1);
        },
        (ExprV::FnSimple(_, a1, _), ExprV::FnSimple(_, b1, _), ExprV::FnSimple(_, c1, _)) => {
            lemma_same_expr_trans(*a1, *b1, *c1);
        },
        (
            ExprV::FnFormals(a0, _, _, a3, _),
            ExprV::FnFormals(b0, _, _, b3, _),
            ExprV::FnFormals(c0, _, _, c3, _),
        ) => {
            lemma_same_formals_trans(a0, b0, c0);
            lemma_same_expr_trans(*a3, *b3, *c3);
        },
        (ExprV::FnApp(a0, a1, _), ExprV::FnApp(b0, b1, _), ExprV::FnApp(c0, c1, _)) => {
            lemma_same_expr_trans(*a0, *b0, *c0);
            lemma_same_expr_trans(*a1, *b1, *c1);
        },
        _ => {},
    }
}

/// Equality of sequences of ExprV is symmetric.
pub proof fn lemma_same_exprs_sym(a: Seq<ExprV>, b: Seq<ExprV>)
    ensures
        same_exprs(a, b) == same_exprs(b, a),
    decreases a,
{
    if a.len() == b.len() && a.len() > 0 {
        assert(decreases_to!(a => a.drop_last()));
        lemma_same_exprs_sym(a.drop_last(), b.drop_last());
        lemma_same_expr_sym(a.last(), b.last());
    }
}

/// Equality of sequences of ExprV is transitive.
pub proof fn lemma_same_exprs_trans(a: Seq<ExprV>, b: Seq<ExprV>, c: Seq<ExprV>)
    requires
        same_exprs(a, b),
        same_exprs(b, c),
    ensures
        same_exprs(a, c),
    decreases a,
{
    if a.len() > 0 {
        assert(decreases_to!(a => a.drop_last()));
        lemma_same_exprs_trans(a.drop_last(), b.drop_last(), c.drop_last());
        lemma_same_expr_trans(a.last(), b.last(), c.last());
    }
}

/// Equality of sequences of FragmentV is symmetric.
pub proof fn lemma_same_fragments_sym(a: Seq<FragmentV>, b: Seq<FragmentV>)
    ensures
        same_fragments(a, b) == same_fragments(b, a),
    decreases a,
{
    if a.len() == b.len() && a.len() > 0 {
        assert(decreases_to!(a => a.drop_last()));
        lemma_same_fragments_sym(a.drop_last(), b.drop_last());
        lemma_same_fragment_sym(a.last(), b.last());
    }
}

/// Equality of sequences of FragmentV is transitive.
pub proof fn lemma_same_fragments_trans(a: Seq<FragmentV>, b: Seq<FragmentV>, c: Seq<FragmentV>)
    requires
        same_fragments(a, b),
        same_fragments(b, c),
    ensures
        same_fragments(a, c),
    decreases a,
{
    if a.len() > 0 {
        assert(decreases_to!(a => a.drop_last()));
        lemma_same_fragments_trans(a.drop_last(), b.drop_last(), c.drop_last());
        lemma_same_fragment_trans(a.last(), b.last(), c.last());
    }
}

/// Equality of sequences of BindV is symmetric.
pub proof fn lemma_same_binds_sym(a: Seq<BindV>, b: Seq<BindV>)
    ensures
        same_binds(a, b) == same_binds(b, a),
    decreases a,
{
    if a.len() == b.len() && a.len() > 0 {
        assert(decreases_to!(a => a.drop_last()));
        lemma_same_binds_sym(a.drop_last(), b.drop_last());
        lemma_same_bind_sym(a.last(), b.last());
    }
}

/// Equality of sequences of BindV is transitive.
pub proof fn lemma_same_binds_trans(a: Seq<BindV>, b: Seq<BindV>, c: Seq<BindV>)
    requires
        same_binds(a, b),
        same_binds(b, c),
    ensures
        same_binds(a, c),
    decreases a,
{
    if a.len() > 0 {
        assert(decreases_to!(a => a.drop_last()));
        lemma_same_binds_trans(a.drop_last(), b.drop_last(), c.drop_last());
        lemma_same_bind_trans(a.last(), b.last(), c.last());
    }
}

/// Equality of sequences of AttrSegmentV is symmetric.
pub proof fn lemma_same_segments_sym(a: Seq<AttrSegmentV>, b: Seq<AttrSegmentV>)
    ensures
        same_segments(a, b) == same_segments(b, a),
    decreases a,
{
    if a.len() == b.len() && a.len() > 0 {
        assert(decreases_to!(a => a.drop_last()));
        lemma_same_segments_sym(a.drop_last(), b.drop_last());
        lemma_same_segment_sym(a.last(), b.last());
    }
}

/// Equality of sequences of AttrSegmentV is transitive.
pub proof fn lemma_same_segments_trans(
    a: Seq<AttrSegmentV>,
    b: Seq<AttrSegmentV>,
    c: Seq<AttrSegmentV>,
)
    requires
        same_segments(a, b),
        same_segments(b, c),
    ensures
        same_segments(a, c),
    decreases a,
{
    if a.len() > 0 {
        assert(decreases_to!(a => a.drop_last()));
        lemma_same_segments_trans(a.drop_last(), b.drop_last(), c.drop_last());
        lemma_same_segment_trans(a.last(), b.last(), c.last());
    }
}

/// Equality of sequences of FormalV is symmetric.
pub proof fn lemma_same_formals_sym(a: Seq<FormalV>, b: Seq<FormalV>)
    ensures
        same_formals(a, b) == same_formals(b, a),
    decreases a,
{
    if a.len() == b.len() && a.len() > 0 {
        assert(decreases_to!(a => a.drop_last()));
        lemma_same_formals_sym(a.drop_last(), b.drop_last());
        lemma_same_formal_sym(a.last(), b.last());
    }
}

/// Equality of sequences of FormalV is transitive.
pub proof fn lemma_same_formals_trans(a: Seq<FormalV>, b: Seq<FormalV>, c: Seq<FormalV>)
    requires
        same_formals(a, b),
        same_formals(b, c),
    ensures
        same_formals(a, c),
    decreases a,
{
    if a.len() > 0 {
        assert(decreases_to!(a => a.drop_last()));
        lemma_same_formals_trans(a.drop_last(), b.drop_last(), c.drop_last());
        lemma_same_formal_trans(a.last(), b.last(), c.last());
    }
}

/// Equality of sequences of identifiers is symmetric and transitive.
pub proof fn lemma_same_idents(a: Seq<IdentV>, b: Seq<IdentV>, c: Seq<IdentV>)
    ensures
        same_idents(a, b) == same_idents(b, a),
        same_idents(a, b) && same_idents(b, c) ==> same_idents(a, c),
    decreases a.len(),
{
    if a.len() == b.len() && a.len() > 0 && b.len() == c.len() {
        lemma_same_idents(a.drop_last(), b.drop_last(), c.drop_last());
    } else if a.len() == b.len() && a.len() > 0 {
        lemma_same_idents(a.drop_last(), b.drop_last(), b.drop_last());
    }
}

/// Equality of fragments is symmetric.
pub proof fn lemma_same_fragment_sym(a: FragmentV, b: FragmentV)
    ensures
        same_fragment(a, b) == same_fragment(b, a),
    decreases a,
{
    if let (FragmentV::Interpolation(x, _), FragmentV::Interpolation(y, _)) = (a, b) {
        lemma_same_expr_sym(*x, *y);
    }
}

/// Equality of fragments is transitive.
pub proof fn lemma_same_fragment_trans(a: FragmentV, b: FragmentV, c: FragmentV)
    requires
        same_fragment(a, b),
        same_fragment(b, c),
    ensures
        same_fragment(a, c),
    decreases a,
{
    if let (
        FragmentV::Interpolation(x, _),
        FragmentV::Interpolation(y, _),
        FragmentV::Interpolation(z, _),
    ) = (a, b, c) {
        lemma_same_expr_trans(*x, *y, *z);
    }
}

/// Equality of bindings is symmetric.
pub proof fn lemma_same_bind_sym(a: BindV, b: BindV)
    ensures
        same_bind(a, b) == same_bind(b, a),
    decreases a,
{
    match (a, b) {
        (BindV::Simple(_, p, x, _), BindV::Simple(_, q, y, _)) => {
            lemma_same_path_sym(p, q);
            lemma_same_expr_sym(*x, *y);
        },
        (BindV::Inherit(n, _), BindV::Inherit(m, _)) => {
            lemma_same_idents(n, m, m);
        },
        (BindV::InheritExpr(x, n, _), BindV::InheritExpr(y, m, _)) => {
            lemma_same_expr_sym(*x, *y);
            lemma_same_idents(n, m, m);
        },
        _ => {},
    }
}

/// Equality of bindings is transitive.
pub proof fn lemma_same_bind_trans(a: BindV, b: BindV, c: BindV)
    requires
        same_bind(a, b),
        same_bind(b, c),
    ensures
        same_bind(a, c),
    decreases a,
{
    match (a, b, c) {
        (BindV::Simple(_, p, x, _), BindV::Simple(_, q, y, _), BindV::Simple(_, r, z, _)) => {
            lemma_same_path_trans(p, q, r);
            lemma_same_expr_trans(*x, *y, *z);
        },
        (BindV::Inherit(n, _), BindV::Inherit(m, _), BindV::Inherit(k, _)) => {
            lemma_same_idents(n, m, k);
        },
        (BindV::InheritExpr(x, n, _), BindV::InheritExpr(y, m, _), BindV::InheritExpr(z, k, _)) => {
            lemma_same_expr_trans(*x, *y, *z);
            lemma_same_idents(n, m, k);
        },
        _ => {},
    }
}

/// Equality of attribute paths is symmetric.
pub proof fn lemma_same_path_sym(a: AttrPathV, b: AttrPathV)
    ensures
        same_path(a, b) == same_path(b, a),
    decreases a,
{
    lemma_same_segments_sym(a.segments, b.segments);
}

/// Equality of attribute paths is transitive.
pub proof fn lemma_same_path_trans(a: AttrPathV, b: AttrPathV, c: AttrPathV)
    requires
        same_path(a, b),
        same_path(b, c),
    ensures
        same_path(a, c),
    decreases a,
{
    lemma_same_segments_trans(a.segments, b.segments, c.segments);
}

/// Equality of segments is symmetric.
pub proof fn lemma_same_segment_sym(a: AttrSegmentV, b: AttrSegmentV)
    ensures
        same_segment(a, b) == same_segment(b, a),
    decreases a,
{
    match (a, b) {
        (AttrSegmentV::Interpolation(x, _), AttrSegmentV::Interpolation(y, _)) => {
            lemma_same_expr_sym(*x, *y);
        },
        (AttrSegmentV::String(x, _), AttrSegmentV::String(y, _)) => {
            lemma_same_fragments_sym(x, y);
        },
        _ => {},
    }
}

/// Equality of segments is transitive.
pub proof fn lemma_same_segment_trans(a: AttrSegmentV, b: AttrSegmentV, c: AttrSegmentV)
    requires
        same_segment(a, b),
        same_segment(b, c),
    ensures
        same_segment(a, c),
    decreases a,
{
    match (a, b, c) {
        (
            AttrSegmentV::Interpolation(x, _),
            AttrSegmentV::Interpolation(y, _),
            AttrSegmentV::Interpolation(z, _),
        ) => {
            lemma_same_expr_trans(*x, *y, *z);
        },
        (AttrSegmentV::String(x, _), AttrSegmentV::String(y, _), AttrSegmentV::String(z, _)) => {
            lemma_same_fragments_trans(x, y, z);
        },
        _ => {},
    }
}

/// Equality of formal arguments is symmetric.
pub proof fn lemma_same_formal_sym(a: FormalV, b: FormalV)
    ensures
        same_formal(a, b) == same_formal(b, a),
    decreases a,
{
    if let (Some(x), Some(y)) = (a.default, b.default) {
        lemma_same_expr_sym(*x, *y);
    }
}

/// Equality of formal arguments is transitive.
pub proof fn lemma_same_formal_trans(a: FormalV, b: FormalV, c: FormalV)
    requires
        same_formal(a, b),
        same_formal(b, c),
    ensures
        same_formal(a, c),
    decreases a,
{
    if let (Some(x), Some(y), Some(z)) = (a.default, b.default, c.default) {
        lemma_same_expr_trans(*x, *y, *z);
    }
}

/// Every function declaration with formal arguments in the expression has an ellipsis
/// (the spans and the fallbacks of projections, which equality does not compare, are not
/// looked at).
pub open spec fn formals_open(e: ExprV) -> bool
    decreases e,
{
    match e {
        ExprV::Paren(x0, _) => formals_open(*x0),
        ExprV::Interpolation(x0, _) => formals_open(*x0),
        ExprV::List(x0, _) => exprs_open(x0),
        ExprV::String(x0, _) => fragments_open(x0),
        ExprV::AttrSet(x0, _) => binds_open(x0),
        ExprV::Unary(_, x1, _) => formals_open(*x1),
        ExprV::Binary(_, x1, x2, _) => formals_open(*x1) && formals_open(*x2),
        ExprV::Let(x0, _) => binds_open(x0),
        ExprV::Rec(x0, _) => binds_open(x0),
        ExprV::Proj(x0, x1, _, _) => formals_open(*x0) && path_open(x1),
        ExprV::If(x0, x1, x2, _) => formals_open(*x0) && formals_open(*x1) && formals_open(*x2),
        ExprV::Or(x0, x1, _) => formals_open(*x0) && formals_open(*x1),
        ExprV::Assert(x0, x1, _) => formals_open(*x0) && formals_open(*x1),
        ExprV::With(x0, x1, _) => formals_open(*x0) && formals_open(*x1),
        ExprV::LetIn(x0, x1, _) => binds_open(x0) && formals_open(*x1),
        ExprV::FnSimple(_, x1, _) => formals_open(*x1),
        ExprV::FnFormals(x0, e, _, x3, _) => e is Some && formals_all_open(x0) && formals_open(*x3),
        ExprV::FnApp(x0, x1, _) => formals_open(*x0) && formals_open(*x1),
        _ => true,
    }
}

/// Every element satisfies `formals_open`.
pub open spec fn exprs_open(s: Seq<ExprV>) -> bool
    decreases s,
{
    if s.len() == 0 {
        true
    } else {
        proof {
            assert(decreases_to!(s => s.drop_last()));
        }
        exprs_open(s.drop_last()) && formals_open(s.last())
    }
}

/// Every element satisfies `fragment_open`.
pub open spec fn fragments_open(s: Seq<FragmentV>) -> bool
    decreases s,
{
    if s.len() == 0 {
        true
    } else {
        proof {
            assert(decreases_to!(s => s.drop_last()));
        }
        fragments_open(s.drop_last()) && fragment_open(s.last())
    }
}

/// Every element satisfies `bind_open`.
pub open spec fn binds_open(s: Seq<BindV>) -> bool
    decreases s,
{
    if s.len() == 0 {
        true
    } else {
        proof {
            assert(decreases_to!(s => s.drop_last()));
        }
        binds_open(s.drop_last()) && bind_open(s.last())
    }
}

/// Every element satisfies `segment_open`.
pub open spec fn segments_open(s: Seq<AttrSegmentV>) -> bool
    decreases s,
{
    if s.len() == 0 {
        true
    } else {
        proof {
            assert(decreases_to!(s => s.drop_last()));
        }
        segments_open(s.drop_last()) && segment_open(s.last())
    }
}

/// Every element satisfies `formal_open`.
pub open spec fn formals_all_open(s: Seq<FormalV>) -> bool
    decreases s,
{
    if s.len() == 0 {
        true
    } else {
        proof {
            assert(decreases_to!(s => s.drop_last()));
        }
        formals_all_open(s.drop_last()) && formal_open(s.last())
    }
}

/// `formals_open` for a string fragment.
pub open spec fn fragment_open(f: FragmentV) -> bool
    decreases f,
{
    match f {
        FragmentV::Literal(..) => true,
        FragmentV::Interpolation(x, _) => formals_open(*x),
    }
}

/// `formals_open` for a binding.
pub open spec fn bind_open(b: BindV) -> bool
    decreases b,
{
    match b {
        BindV::Simple(_, p, x, _) => path_open(p) && formals_open(*x),
        BindV::Inherit(..) => true,
        BindV::InheritExpr(x, _, _) => formals_open(*x),
    }
}

/// `formals_open` for an attribute path.
pub open spec fn path_open(p: AttrPathV) -> bool
    decreases p,
{
    segments_open(p.segments)
}

/// `formals_open` for a segment.
pub open spec fn segment_open(s: AttrSegmentV) -> bool
    decreases s,
{
    match s {
        AttrSegmentV::Ident(_) => true,
        AttrSegmentV::Interpolation(x, _) => formals_open(*x),
        AttrSegmentV::String(fs, _) => fragments_open(fs),
    }
}

/// `formals_open` for a formal argument.
pub open spec fn formal_open(f: FormalV) -> bool
    decreases f,
{
    match f.default {
        Some(d) => formals_open(*d),
        None => true,
    }
}

/// An expression equals itself when every function declaration with formal arguments in it
/// has an ellipsis. (One without an ellipsis is never equal to any declaration, itself
/// included.)
pub proof fn lemma_same_expr_refl(a: ExprV)
    requires
        formals_open(a),
    ensures
        same_expr(a, a),
    decreases a,
{
    match a {
        ExprV::Paren(x0, _) => {
            lemma_same_expr_refl(*x0);
        },
        ExprV::Interpolation(x0, _) => {
            lemma_same_expr_refl(*x0);
        },
        ExprV::List(x0, _) => {
            lemma_same_exprs_refl(x0);
        },
        ExprV::String(x0, _) => {
            lemma_same_fragments_refl(x0);
        },
        ExprV::AttrSet(x0, _) => {
            lemma_same_binds_refl(x0);
        },
        ExprV::Unary(_, x1, _) => {
            lemma_same_expr_refl(*x1);
        },
        ExprV::Binary(_, x1, x2, _) => {
            lemma_same_expr_refl(*x1);
            lemma_same_expr_refl(*x2);
        },
        ExprV::Let(x0, _) => {
            lemma_same_binds_refl(x0);
        },
        ExprV::Rec(x0, _) => {
            lemma_same_binds_refl(x0);
        },
        ExprV::Proj(x0, x1, _, _) => {
            lemma_same_expr_refl(*x0);
            lemma_same_path_refl(x1);
        },
        ExprV::If(x0, x1, x2, _) => {
            lemma_same_expr_refl(*x0);
            lemma_same_expr_refl(*x1);
            lemma_same_expr_refl(*x2);
        },
        ExprV::Or(x0, x1, _) => {
            lemma_same_expr_refl(*x0);
            lemma_same_expr_refl(*x1);
        },
        ExprV::Assert(x0, x1, _) => {
            lemma_same_expr_refl(*x0);
            lemma_same_expr_refl(*x1);
        },
        ExprV::With(x0, x1, _) => {
            lemma_same_expr_refl(*x0);
            lemma_same_expr_refl(*x1);
        },
        ExprV::LetIn(x0, x1, _) => {
            lemma_same_binds_refl(x0);
            lemma_same_expr_refl(*x1);
        },
        ExprV::FnSimple(_, x1, _) => {
            lemma_same_expr_refl(*x1);
        },
        ExprV::FnFormals(x0, _, _, x3, _) => {
            lemma_same_formals_refl(x0);
            lemma_same_expr_refl(*x3);
        },
        ExprV::FnApp(x0, x1, _) => {
            lemma_same_expr_refl(*x0);
            lemma_same_expr_refl(*x1);
        },
        _ => {},
    }
}

/// `lemma_same_expr_refl` for sequences of ExprV.
pub proof fn lemma_same_exprs_refl(a: Seq<ExprV>)
    requires
        exprs_open(a),
    ensures
        same_exprs(a, a),
    decreases a,
{
    if a.len() > 0 {
        assert(decreases_to!(a => a.drop_last()));
        lemma_same_exprs_refl(a.drop_last());
        lemma_same_expr_refl(a.last());
    }
}

/// `lemma_same_expr_refl` for sequences of FragmentV.
pub proof fn lemma_same_fragments_refl(a: Seq<FragmentV>)
    requires
        fragments_open(a),
    ensures
        same_fragments(a, a),
    decreases a,
{
    if a.len() > 0 {
        assert(decreases_to!(a => a.drop_last()));
        lemma_same_fragments_refl(a.drop_last());
        lemma_same_fragment_refl(a.last());
    }
}

/// `lemma_same_expr_refl` for sequences of BindV.
pub proof fn lemma_same_binds_refl(a: Seq<BindV>)
    requires
        binds_open(a),
    ensures
        same_binds(a, a),
    decreases a,
{
    if a.len() > 0 {
        assert(decreases_to!(a => a.drop_last()));
        lemma_same_binds_refl(a.drop_last());
        lemma_same_bind_refl(a.last());
    }
}

/// `lemma_same_expr_refl` for sequences of AttrSegmentV.
pub proof fn lemma_same_segments_refl(a: Seq<AttrSegmentV>)
    requires
        segments_open(a),
    ensures
        same_segments(a, a),
    decreases a,
{
    if a.len() > 0 {
        assert(decreases_to!(a => a.drop_last()));
        lemma_same_segments_refl(a.drop_last());
        lemma_same_segment_refl(a.last());
    }
}

/// `lemma_same_expr_refl` for sequences of FormalV.
pub proof fn lemma_same_formals_refl(a: Seq<FormalV>)
    requires
        formals_all_open(a),
    ensures
        same_formals(a, a),
    decreases a,
{
    if a.len() > 0 {
        assert(decreases_to!(a => a.drop_last()));
        lemma_same_formals_refl(a.drop_last());
        lemma_same_formal_refl(a.last());
    }
}

/// Sequences of identifiers equal themselves.
pub proof fn lemma_same_idents_refl(a: Seq<IdentV>)
    ensures
        same_idents(a, a),
    decreases a.len(),
{
    if a.len() > 0 {
        lemma_same_idents_refl(a.drop_last());
    }
}

/// `lemma_same_expr_refl` for string fragments.
pub proof fn lemma_same_fragment_refl(a: FragmentV)
    requires
        fragment_open(a),
    ensures
        same_fragment(a, a),
    decreases a,
{
    if let FragmentV::Interpolation(x, _) = a {
        lemma_same_expr_refl(*x);
    }
}

/// `lemma_same_expr_refl` for bindings.
pub proof fn lemma_same_bind_refl(a: BindV)
    requires
        bind_open(a),
    ensures
        same_bind(a, a),
    decreases a,
{
    match a {
        BindV::Simple(_, p, x, _) => {
            lemma_same_path_refl(p);
            lemma_same_expr_refl(*x);
        },
        BindV::Inherit(n, _) => {
            lemma_same_idents_refl(n);
        },
        BindV::InheritExpr(x, n, _) => {
            lemma_same_expr_refl(*x);
            lemma_same_idents_refl(n);
        },
    }
}

/// `lemma_same_expr_refl` for attribute paths.
pub proof fn lemma_same_path_refl(a: AttrPathV)
    requires
        path_open(a),
    ensures
        same_path(a, a),
    decreases a,
{
    lemma_same_segments_refl(a.segments);
}

/// `lemma_same_expr_refl` for segments.
pub proof fn lemma_same_segment_refl(a: AttrSegmentV)
    requires
        segment_open(a),
    ensures
        same_segment(a, a),
    decreases a,
{
    match a {
        AttrSegmentV::Ident(_) => {},
        AttrSegmentV::Interpolation(x, _) => {
            lemma_same_expr_refl(*x);
        },
        AttrSegmentV::String(fs, _) => {
            lemma_same_fragments_refl(fs);
        },
    }
}

/// `lemma_same_expr_refl` for formal arguments.
pub proof fn lemma_same_formal_refl(a: FormalV)
    requires
        formal_open(a),
    ensures
        same_formal(a, a),
    decreases a,
{
    if let Some(d) = a.default {
        lemma_same_expr_refl(*d);
    }
}

/// Equality of expressions is symmetric: `a == b` exactly when `b == a`.
pub proof fn law_expr_eq_symmetric(a: Expr, b: Expr)
    ensures
        same_expr(a@, b@) == same_expr(b@, a@),
{
    lemma_same_expr_sym(a@, b@);
}

/// Equality of expressions is transitive: `a == b` and `b == c` give `a == c`.
pub proof fn law_expr_eq_transitive(a: Expr, b: Expr, c: Expr)
    requires
        same_expr(a@, b@),
        same_expr(b@, c@),
    ensures
        same_expr(a@, c@),
{
    lemma_same_expr_trans(a@, b@, c@);
}

/// An expression equals itself when every function declaration with formal arguments in it
/// has an ellipsis.
pub proof fn law_expr_eq_reflexive(a: Expr)
    requires
        formals_open(a@),
    ensures
        same_expr(a@, a@),
{
    lemma_same_expr_refl(a@);
}

} // verus!
