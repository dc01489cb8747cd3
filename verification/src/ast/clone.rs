//! Copies of syntax trees.

use vstd::prelude::*;

use crate::ast::tokens::Ident;
use crate::ast::{
    binds_view, exprs_view, formals_view, fragments_view, idents_view, lemma_attr_path_view,
    lemma_segment_view, lemma_seq_views, segments_view, AttrPath, AttrSegment, Bind, BindInherit,
    BindInheritExpr, BindSimple, Expr, ExprAssert, ExprBinary, ExprFnApp, ExprFnDecl, ExprIf,
    ExprInterpolation, ExprLet, ExprLetIn, ExprList, ExprOr, ExprParen, ExprProj, ExprRec, ExprSet,
    ExprString, ExprUnary, ExprV, ExprWith, FnDeclFormals, FnDeclSimple, Formal, SourceFile,
    StringFragment,
};

verus! {

/// The view of an optional boxed expression.
pub open spec fn opt_expr_view(o: Option<Box<Expr>>) -> Option<ExprV> {
    match o {
        Some(e) => Some(e@),
        None => None,
    }
}

/// A copy of every element of `v`, in order.
fn copy_exprs(v: &Vec<Expr>) -> (res: Vec<Expr>)
    ensures
        exprs_view(res@) == exprs_view(v@),
    decreases v,
{
    let mut res: Vec<Expr> = Vec::new();
    let mut i: usize = 0;
    while i < v.len()
        invariant
            i <= v@.len(),
            exprs_view(res@) == exprs_view(v@.take(i as int)),
        decreases v.len() - i,
    {
        let x = v[i].copy_tree();
        let ghost r0 = res@;
        res.push(x);
        proof {
            assert(exprs_view(res@) =~= exprs_view(r0).push(x@));
            assert(v@.take(i + 1) =~= v@.take(i as int).push(v@[i as int]));
            assert(exprs_view(v@.take(i + 1)) =~= exprs_view(v@.take(i as int)).push(v@[i as int]@));
        }
        i = i + 1;
    }
    assert(v@.take(v@.len() as int) =~= v@);
    res
}

/// A copy of every element of `v`, in order.
fn copy_binds(v: &Vec<Bind>) -> (res: Vec<Bind>)
    ensures
        binds_view(res@) == binds_view(v@),
    decreases v,
{
    let mut res: Vec<Bind> = Vec::new();
    let mut i: usize = 0;
    while i < v.len()
        invariant
            i <= v@.len(),
            binds_view(res@) == binds_view(v@.take(i as int)),
        decreases v.len() - i,
    {
        let x = v[i].copy_tree();
        let ghost r0 = res@;
        res.push(x);
        proof {
            assert(binds_view(res@) =~= binds_view(r0).push(x@));
            assert(v@.take(i + 1) =~= v@.take(i as int).push(v@[i as int]));
            assert(binds_view(v@.take(i + 1)) =~= binds_view(v@.take(i as int)).push(v@[i as int]@));
        }
        i = i + 1;
    }
    assert(v@.take(v@.len() as int) =~= v@);
    res
}

/// A copy of every element of `v`, in order.
fn copy_idents(v: &Vec<Ident>) -> (res: Vec<Ident>)
    ensures
        idents_view(res@) == idents_view(v@),
{
    let mut res: Vec<Ident> = Vec::new();
    let mut i: usize = 0;
    while i < v.len()
        invariant
            i <= v@.len(),
            idents_view(res@) == idents_view(v@.take(i as int)),
        decreases v.len() - i,
    {
        let x = v[i].clone();
        let ghost r0 = res@;
        res.push(x);
        proof {
            assert(idents_view(res@) =~= idents_view(r0).push(x@));
            assert(v@.take(i + 1) =~= v@.take(i as int).push(v@[i as int]));
            assert(idents_view(v@.take(i + 1)) =~= idents_view(v@.take(i as int)).push(v@[i as int]@));
        }
        i = i + 1;
    }
    assert(v@.take(v@.len() as int) =~= v@);
    res
}

/// A copy of every element of `v`, in order.
fn copy_formals(v: &Vec<Formal>) -> (res: Vec<Formal>)
    ensures
        formals_view(res@) == formals_view(v@),
    decreases v,
{
    let mut res: Vec<Formal> = Vec::new();
    let mut i: usize = 0;
    while i < v.len()
        invariant
            i <= v@.len(),
            formals_view(res@) == formals_view(v@.take(i as int)),
        decreases v.len() - i,
    {
        let x = v[i].copy_tree();
        let ghost r0 = res@;
        res.push(x);
        proof {
            assert(formals_view(res@) =~= formals_view(r0).push(x@));
            assert(v@.take(i + 1) =~= v@.take(i as int).push(v@[i as int]));
            assert(formals_view(v@.take(i + 1)) =~= formals_view(v@.take(i as int)).push(v@[i as int]@));
        }
        i = i + 1;
    }
    assert(v@.take(v@.len() as int) =~= v@);
    res
}

/// A copy of every element of `v`, in order.
fn copy_fragments(v: &Vec<StringFragment>) -> (res: Vec<StringFragment>)
    ensures
        fragments_view(res@) == fragments_view(v@),
    decreases v,
{
    let mut res: Vec<StringFragment> = Vec::new();
    let mut i: usize = 0;
    while i < v.len()
        invariant
            i <= v@.len(),
            fragments_view(res@) == fragments_view(v@.take(i as int)),
        decreases v.len() - i,
    {
        let x = v[i].copy_tree();
        let ghost r0 = res@;
        res.push(x);
        proof {
            assert(fragments_view(res@) =~= fragments_view(r0).push(x@));
            assert(v@.take(i + 1) =~= v@.take(i as int).push(v@[i as int]));
            assert(fragments_view(v@.take(i + 1)) =~= fragments_view(v@.take(i as int)).push(v@[i as int]@));
        }
        i = i + 1;
    }
    assert(v@.take(v@.len() as int) =~= v@);
    res
}

/// A copy of every element of `v`, in order.
fn copy_segments(v: &Vec<AttrSegment>) -> (res: Vec<AttrSegment>)
    ensures
        segments_view(res@) == segments_view(v@),
    decreases v,
{
    let mut res: Vec<AttrSegment> = Vec::new();
    let mut i: usize = 0;
    while i < v.len()
        invariant
            i <= v@.len(),
            segments_view(res@) == segments_view(v@.take(i as int)),
        decreases v.len() - i,
    {
        let x = v[i].copy_tree();
        let ghost r0 = res@;
        res.push(x);
        proof {
            assert(segments_view(res@) =~= segments_view(r0).push(x@));
            assert(v@.take(i + 1) =~= v@.take(i as int).push(v@[i as int]));
            assert(segments_view(v@.take(i + 1)) =~= segments_view(v@.take(i as int)).push(v@[i as int]@));
        }
        i = i + 1;
    }
    assert(v@.take(v@.len() as int) =~= v@);
    res
}

impl ExprParen {
    /// A copy of the node.
    fn copy_tree(&self) -> (res: ExprParen)
        ensures
            res.expr@ == self.expr@,
            res.span == self.span,
        decreases self,
    {
        ExprParen {
            expr: Box::new(self.expr.copy_tree()),
            span: self.span,
        }
    }
}

impl Clone for ExprParen {
    fn clone(&self) -> (res: ExprParen)
        ensures
            res.expr@ == self.expr@,
            res.span == self.span,
    {
        self.copy_tree()
    }
}

impl ExprInterpolation {
    /// A copy of the node.
    fn copy_tree(&self) -> (res: ExprInterpolation)
        ensures
            res.inner@ == self.inner@,
            res.span == self.span,
        decreases self,
    {
        ExprInterpolation {
            inner: Box::new(self.inner.copy_tree()),
            span: self.span,
        }
    }
}

impl Clone for ExprInterpolation {
    fn clone(&self) -> (res: ExprInterpolation)
        ensures
            res.inner@ == self.inner@,
            res.span == self.span,
    {
        self.copy_tree()
    }
}

impl ExprList {
    /// A copy of the node.
    fn copy_tree(&self) -> (res: ExprList)
        ensures
            exprs_view(res.elems@) == exprs_view(self.elems@),
            res.span == self.span,
        decreases self,
    {
        ExprList {
            elems: copy_exprs(&self.elems),
            span: self.span,
        }
    }
}

impl Clone for ExprList {
    fn clone(&self) -> (res: ExprList)
        ensures
            exprs_view(res.elems@) == exprs_view(self.elems@),
            res.span == self.span,
    {
        self.copy_tree()
    }
}

impl ExprSet {
    /// A copy of the node.
    fn copy_tree(&self) -> (res: ExprSet)
        ensures
            binds_view(res.binds@) == binds_view(self.binds@),
            res.span == self.span,
        decreases self,
    {
        ExprSet {
            binds: copy_binds(&self.binds),
            span: self.span,
        }
    }
}

impl Clone for ExprSet {
    fn clone(&self) -> (res: ExprSet)
        ensures
            binds_view(res.binds@) == binds_view(self.binds@),
            res.span == self.span,
    {
        self.copy_tree()
    }
}

impl ExprUnary {
    /// A copy of the node.
    fn copy_tree(&self) -> (res: ExprUnary)
        ensures
            res.op == self.op,
            res.expr@ == self.expr@,
            res.span == self.span,
        decreases self,
    {
        ExprUnary {
            op: self.op,
            expr: Box::new(self.expr.copy_tree()),
            span: self.span,
        }
    }
}

impl Clone for ExprUnary {
    fn clone(&self) -> (res: ExprUnary)
        ensures
            res.op == self.op,
            res.expr@ == self.expr@,
            res.span == self.span,
    {
        self.copy_tree()
    }
}

impl ExprBinary {
    /// A copy of the node.
    fn copy_tree(&self) -> (res: ExprBinary)
        ensures
            res.op == self.op,
            res.lhs@ == self.lhs@,
            res.rhs@ == self.rhs@,
            res.span == self.span,
        decreases self,
    {
        ExprBinary {
            op: self.op,
            lhs: Box::new(self.lhs.copy_tree()),
            rhs: Box::new(self.rhs.copy_tree()),
            span: self.span,
        }
    }
}

impl Clone for ExprBinary {
    fn clone(&self) -> (res: ExprBinary)
        ensures
            res.op == self.op,
            res.lhs@ == self.lhs@,
            res.rhs@ == self.rhs@,
            res.span == self.span,
    {
        self.copy_tree()
    }
}

impl BindSimple {
    /// A copy of the node.
    fn copy_tree(&self) -> (res: BindSimple)
        ensures
            res.comment == self.comment,
            res.attr@ == self.attr@,
            res.expr@ == self.expr@,
            res.span == self.span,
        decreases self,
    {
        BindSimple {
            comment: self.comment.clone(),
            attr: self.attr.copy_tree(),
            expr: Box::new(self.expr.copy_tree()),
            span: self.span,
        }
    }
}

impl Clone for BindSimple {
    fn clone(&self) -> (res: BindSimple)
        ensures
            res.comment == self.comment,
            res.attr@ == self.attr@,
            res.expr@ == self.expr@,
            res.span == self.span,
    {
        self.copy_tree()
    }
}

impl BindInherit {
    /// A copy of the node.
    fn copy_tree(&self) -> (res: BindInherit)
        ensures
            idents_view(res.names@) == idents_view(self.names@),
            res.span == self.span,
        decreases self,
    {
        BindInherit {
            names: copy_idents(&self.names),
            span: self.span,
        }
    }
}

impl Clone for BindInherit {
    fn clone(&self) -> (res: BindInherit)
        ensures
            idents_view(res.names@) == idents_view(self.names@),
            res.span == self.span,
    {
        self.copy_tree()
    }
}

impl BindInheritExpr {
    /// A copy of the node.
    fn copy_tree(&self) -> (res: BindInheritExpr)
        ensures
            res.expr@ == self.expr@,
            idents_view(res.names@) == idents_view(self.names@),
            res.span == self.span,
        decreases self,
    {
        BindInheritExpr {
            expr: Box::new(self.expr.copy_tree()),
            names: copy_idents(&self.names),
            span: self.span,
        }
    }
}

impl Clone for BindInheritExpr {
    fn clone(&self) -> (res: BindInheritExpr)
        ensures
            res.expr@ == self.expr@,
            idents_view(res.names@) == idents_view(self.names@),
            res.span == self.span,
    {
        self.copy_tree()
    }
}

impl ExprLet {
    /// A copy of the node.
    fn copy_tree(&self) -> (res: ExprLet)
        ensures
            binds_view(res.binds@) == binds_view(self.binds@),
            res.span == self.span,
        decreases self,
    {
        ExprLet {
            binds: copy_binds(&self.binds),
            span: self.span,
        }
    }
}

impl Clone for ExprLet {
    fn clone(&self) -> (res: ExprLet)
        ensures
            binds_view(res.binds@) == binds_view(self.binds@),
            res.span == self.span,
    {
        self.copy_tree()
    }
}

impl ExprRec {
    /// A copy of the node.
    fn copy_tree(&self) -> (res: ExprRec)
        ensures
            binds_view(res.binds@) == binds_view(self.binds@),
            res.span == self.span,
        decreases self,
    {
        ExprRec {
            binds: copy_binds(&self.binds),
            span: self.span,
        }
    }
}

impl Clone for ExprRec {
    fn clone(&self) -> (res: ExprRec)
        ensures
            binds_view(res.binds@) == binds_view(self.binds@),
            res.span == self.span,
    {
        self.copy_tree()
    }
}

impl ExprProj {
    /// A copy of the node.
    fn copy_tree(&self) -> (res: ExprProj)
        ensures
            res.base@ == self.base@,
            res.attr@ == self.attr@,
            opt_expr_view(res.fallback) == opt_expr_view(self.fallback),
            res.span == self.span,
        decreases self,
    {
        ExprProj {
            base: Box::new(self.base.copy_tree()),
            attr: self.attr.copy_tree(),
            fallback: match &self.fallback {
                Some(e) => Some(Box::new(e.copy_tree())),
                None => None,
            },
            span: self.span,
        }
    }
}

impl Clone for ExprProj {
    fn clone(&self) -> (res: ExprProj)
        ensures
            res.base@ == self.base@,
            res.attr@ == self.attr@,
            opt_expr_view(res.fallback) == opt_expr_view(self.fallback),
            res.span == self.span,
    {
        self.copy_tree()
    }
}

impl ExprIf {
    /// A copy of the node.
    fn copy_tree(&self) -> (res: ExprIf)
        ensures
            res.cond@ == self.cond@,
            res.body@ == self.body@,
            res.fallback@ == self.fallback@,
            res.span == self.span,
        decreases self,
    {
        ExprIf {
            cond: Box::new(self.cond.copy_tree()),
            body: Box::new(self.body.copy_tree()),
            fallback: Box::new(self.fallback.copy_tree()),
            span: self.span,
        }
    }
}

impl Clone for ExprIf {
    fn clone(&self) -> (res: ExprIf)
        ensures
            res.cond@ == self.cond@,
            res.body@ == self.body@,
            res.fallback@ == self.fallback@,
            res.span == self.span,
    {
        self.copy_tree()
    }
}

impl ExprOr {
    /// A copy of the node.
    fn copy_tree(&self) -> (res: ExprOr)
        ensures
            res.expr@ == self.expr@,
            res.fallback@ == self.fallback@,
            res.span == self.span,
        decreases self,
    {
        ExprOr {
            expr: Box::new(self.expr.copy_tree()),
            fallback: Box::new(self.fallback.copy_tree()),
            span: self.span,
        }
    }
}

impl Clone for ExprOr {
    fn clone(&self) -> (res: ExprOr)
        ensures
            res.expr@ == self.expr@,
            res.fallback@ == self.fallback@,
            res.span == self.span,
    {
        self.copy_tree()
    }
}

impl ExprAssert {
    /// A copy of the node.
    fn copy_tree(&self) -> (res: ExprAssert)
        ensures
            res.cond@ == self.cond@,
            res.expr@ == self.expr@,
            res.span == self.span,
        decreases self,
    {
        ExprAssert {
            cond: Box::new(self.cond.copy_tree()),
            expr: Box::new(self.expr.copy_tree()),
            span: self.span,
        }
    }
}

impl Clone for ExprAssert {
    fn clone(&self) -> (res: ExprAssert)
        ensures
            res.cond@ == self.cond@,
            res.expr@ == self.expr@,
            res.span == self.span,
    {
        self.copy_tree()
    }
}

impl ExprWith {
    /// A copy of the node.
    fn copy_tree(&self) -> (res: ExprWith)
        ensures
            res.with@ == self.with@,
            res.expr@ == self.expr@,
            res.span == self.span,
        decreases self,
    {
        ExprWith {
            with: Box::new(self.with.copy_tree()),
            expr: Box::new(self.expr.copy_tree()),
            span: self.span,
        }
    }
}

impl Clone for ExprWith {
    fn clone(&self) -> (res: ExprWith)
        ensures
            res.with@ == self.with@,
            res.expr@ == self.expr@,
            res.span == self.span,
    {
        self.copy_tree()
    }
}

impl ExprLetIn {
    /// A copy of the node.
    fn copy_tree(&self) -> (res: ExprLetIn)
        ensures
            binds_view(res.binds@) == binds_view(self.binds@),
            res.body@ == self.body@,
            res.span == self.span,
        decreases self,
    {
        ExprLetIn {
            binds: copy_binds(&self.binds),
            body: Box::new(self.body.copy_tree()),
            span: self.span,
        }
    }
}

impl Clone for ExprLetIn {
    fn clone(&self) -> (res: ExprLetIn)
        ensures
            binds_view(res.binds@) == binds_view(self.binds@),
            res.body@ == self.body@,
            res.span == self.span,
    {
        self.copy_tree()
    }
}

impl FnDeclSimple {
    /// A copy of the node.
    fn copy_tree(&self) -> (res: FnDeclSimple)
        ensures
            res.name == self.name,
            res.body@ == self.body@,
            res.span == self.span,
        decreases self,
    {
        FnDeclSimple {
            name: self.name.clone(),
            body: Box::new(self.body.copy_tree()),
            span: self.span,
        }
    }
}

impl Clone for FnDeclSimple {
    fn clone(&self) -> (res: FnDeclSimple)
        ensures
            res.name == self.name,
            res.body@ == self.body@,
            res.span == self.span,
    {
        self.copy_tree()
    }
}

impl Formal {
    /// A copy of the node.
    fn copy_tree(&self) -> (res: Formal)
        ensures
            res.name == self.name,
            opt_expr_view(res.default) == opt_expr_view(self.default),
            res.span == self.span,
            res@ == self@,
        decreases self,
    {
        Formal {
            name: self.name.clone(),
            default: match &self.default {
                Some(e) => Some(Box::new(e.copy_tree())),
                None => None,
            },
            span: self.span,
        }
    }
}

impl Clone for Formal {
    fn clone(&self) -> (res: Formal)
        ensures
            res.name == self.name,
            opt_expr_view(res.default) == opt_expr_view(self.default),
            res.span == self.span,
            res@ == self@,
    {
        self.copy_tree()
    }
}

impl FnDeclFormals {
    /// A copy of the node.
    fn copy_tree(&self) -> (res: FnDeclFormals)
        ensures
            formals_view(res.formals@) == formals_view(self.formals@),
            res.ellipsis == self.ellipsis,
            res.extra == self.extra,
            res.body@ == self.body@,
            res.span == self.span,
        decreases self,
    {
        FnDeclFormals {
            formals: copy_formals(&self.formals),
            ellipsis: self.ellipsis,
            extra: self.extra.clone(),
            body: Box::new(self.body.copy_tree()),
            span: self.span,
        }
    }
}

impl Clone for FnDeclFormals {
    fn clone(&self) -> (res: FnDeclFormals)
        ensures
            formals_view(res.formals@) == formals_view(self.formals@),
            res.ellipsis == self.ellipsis,
            res.extra == self.extra,
            res.body@ == self.body@,
            res.span == self.span,
    {
        self.copy_tree()
    }
}

impl ExprFnApp {
    /// A copy of the node.
    fn copy_tree(&self) -> (res: ExprFnApp)
        ensures
            res.function@ == self.function@,
            res.argument@ == self.argument@,
            res.span == self.span,
        decreases self,
    {
        ExprFnApp {
            function: Box::new(self.function.copy_tree()),
            argument: Box::new(self.argument.copy_tree()),
            span: self.span,
        }
    }
}

impl Clone for ExprFnApp {
    fn clone(&self) -> (res: ExprFnApp)
        ensures
            res.function@ == self.function@,
            res.argument@ == self.argument@,
            res.span == self.span,
    {
        self.copy_tree()
    }
}

impl ExprString {
    /// A copy of the node.
    fn copy_tree(&self) -> (res: ExprString)
        ensures
            fragments_view(res.0@) == fragments_view(self.0@),
            res.1 == self.1,
        decreases self,
    {
        ExprString(copy_fragments(&self.0), self.1)
    }
}

impl Clone for ExprString {
    fn clone(&self) -> (res: ExprString)
        ensures
            fragments_view(res.0@) == fragments_view(self.0@),
            res.1 == self.1,
    {
        self.copy_tree()
    }
}

impl AttrPath {
    /// A copy of the node.
    fn copy_tree(&self) -> (res: AttrPath)
        ensures
            segments_view(res.0@) == segments_view(self.0@),
            res.1 == self.1,
            res@ == self@,
        decreases self,
    {
        proof {
            lemma_attr_path_view(*self);
        }
        let res = AttrPath(copy_segments(&self.0), self.1);
        proof {
            lemma_attr_path_view(res);
        }
        res
    }
}

impl Clone for AttrPath {
    fn clone(&self) -> (res: AttrPath)
        ensures
            segments_view(res.0@) == segments_view(self.0@),
            res.1 == self.1,
            res@ == self@,
    {
        self.copy_tree()
    }
}

impl Expr {
    /// A copy of the node.
    fn copy_tree(&self) -> (res: Expr)
        ensures
            res@ == self@,
        decreases self,
    {
        proof {
            lemma_seq_views(*self);
        }
        let res = match self {
            Expr::Paren(e) => Expr::Paren(e.copy_tree()),
            Expr::Interpolation(e) => Expr::Interpolation(e.copy_tree()),
            Expr::List(e) => Expr::List(e.copy_tree()),
            Expr::String(e) => Expr::String(e.copy_tree()),
            Expr::AttrSet(e) => Expr::AttrSet(e.copy_tree()),
            Expr::Unary(e) => Expr::Unary(e.copy_tree()),
            Expr::Binary(e) => Expr::Binary(e.copy_tree()),
            Expr::Let(e) => Expr::Let(e.copy_tree()),
            Expr::Rec(e) => Expr::Rec(e.copy_tree()),
            Expr::Proj(e) => Expr::Proj(e.copy_tree()),
            Expr::If(e) => Expr::If(e.copy_tree()),
            Expr::Or(e) => Expr::Or(e.copy_tree()),
            Expr::Assert(e) => Expr::Assert(e.copy_tree()),
            Expr::With(e) => Expr::With(e.copy_tree()),
            Expr::LetIn(e) => Expr::LetIn(e.copy_tree()),
            Expr::FnDecl(e) => Expr::FnDecl(e.copy_tree()),
            Expr::FnApp(e) => Expr::FnApp(e.copy_tree()),
            Expr::Ident(i) => Expr::Ident(i.clone()),
            Expr::Literal(l) => Expr::Literal(l.clone()),
            Expr::Error(s) => Expr::Error(*s),
            Expr::Trap(s) => Expr::Trap(*s),
        };
        proof {
            lemma_seq_views(res);
        }
        res
    }
}

impl Clone for Expr {
    fn clone(&self) -> (res: Expr)
        ensures
            res@ == self@,
    {
        self.copy_tree()
    }
}

impl ExprFnDecl {
    /// A copy of the node.
    fn copy_tree(&self) -> (res: ExprFnDecl)
        ensures
            Expr::FnDecl(res)@ == Expr::FnDecl(*self)@,
        decreases self,
    {
        proof {
            lemma_seq_views(Expr::FnDecl(*self));
        }
        let res = match self {
            ExprFnDecl::Simple(f) => ExprFnDecl::Simple(f.copy_tree()),
            ExprFnDecl::Formals(f) => ExprFnDecl::Formals(f.copy_tree()),
        };
        proof {
            lemma_seq_views(Expr::FnDecl(res));
        }
        res
    }
}

impl Clone for ExprFnDecl {
    fn clone(&self) -> (res: ExprFnDecl)
        ensures
            Expr::FnDecl(res)@ == Expr::FnDecl(*self)@,
    {
        self.copy_tree()
    }
}

impl Bind {
    /// A copy of the node.
    fn copy_tree(&self) -> (res: Bind)
        ensures
            res@ == self@,
        decreases self,
    {
        match self {
            Bind::Simple(b) => Bind::Simple(b.copy_tree()),
            Bind::Inherit(b) => Bind::Inherit(b.copy_tree()),
            Bind::InheritExpr(b) => Bind::InheritExpr(b.copy_tree()),
        }
    }
}

impl Clone for Bind {
    fn clone(&self) -> (res: Bind)
        ensures
            res@ == self@,
    {
        self.copy_tree()
    }
}

impl AttrSegment {
    /// A copy of the node.
    fn copy_tree(&self) -> (res: AttrSegment)
        ensures
            res@ == self@,
        decreases self,
    {
        proof {
            lemma_segment_view(*self);
        }
        let res = match self {
            AttrSegment::Ident(i) => AttrSegment::Ident(i.clone()),
            AttrSegment::Interpolation(e) => AttrSegment::Interpolation(e.copy_tree()),
            AttrSegment::String(e) => AttrSegment::String(e.copy_tree()),
        };
        proof {
            lemma_segment_view(res);
        }
        res
    }
}

impl Clone for AttrSegment {
    fn clone(&self) -> (res: AttrSegment)
        ensures
            res@ == self@,
    {
        self.copy_tree()
    }
}

impl StringFragment {
    /// A copy of the node.
    fn copy_tree(&self) -> (res: StringFragment)
        ensures
            res@ == self@,
        decreases self,
    {
        match self {
            StringFragment::Literal(t, s) => StringFragment::Literal(t.clone(), *s),
            StringFragment::Interpolation(e) => StringFragment::Interpolation(e.copy_tree()),
        }
    }
}

impl Clone for StringFragment {
    fn clone(&self) -> (res: StringFragment)
        ensures
            res@ == self@,
    {
        self.copy_tree()
    }
}

impl Clone for SourceFile {
    fn clone(&self) -> (res: SourceFile)
        ensures
            res.comment == self.comment,
            res.expr@ == self.expr@,
    {
        SourceFile { comment: self.comment.clone(), expr: Box::new(self.expr.copy_tree()) }
    }
}

} // verus!
