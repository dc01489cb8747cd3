//! The abstract syntax tree of Nix expressions.

use vstd::prelude::*;

use crate::span::Span;

use self::tokens::{Comment, CommentV, Ident, IdentV, Literal, LiteralV};

pub mod clone;
pub mod display;
pub mod equal_text;
pub mod eq;
pub mod tokens;

verus! {

/// A source file with a top-level doc comment.
#[derive(Debug)]
pub struct SourceFile {
    pub comment: Option<Comment>,
    pub expr: Box<Expr>,
}

impl SourceFile {
    /// A source file with the given doc comment and expression.
    pub fn new(comment: Option<Comment>, expr: Box<Expr>) -> (res: SourceFile)
        ensures
            res.comment == comment,
            res.expr == expr,
    {
        SourceFile { comment, expr }
    }

    /// The doc comment at the top of the file, if any.
    pub fn comment(&self) -> (res: Option<&Comment>)
        ensures
            res matches Some(c) ==> self.comment == Some(*c),
            res is None ==> self.comment is None,
    {
        match &self.comment {
            Some(c) => Some(c),
            None => None,
        }
    }

    /// The expression of the file.
    pub fn expr(&self) -> (res: &Expr)
        ensures
            *res == *self.expr,
    {
        &self.expr
    }

    /// The span of the file: the merge of the comment's span (the empty span at offset 0
    /// when there is no comment) and the expression's span.
    pub open spec fn spec_span(self) -> Span {
        let first = match self.comment {
            Some(c) => c.span,
            None => Span::spec_new(0, 0),
        };
        first.spec_merge(self.expr@.span())
    }

    /// The span of the file.
    pub fn span(&self) -> (res: Span)
        ensures
            res == self.spec_span(),
    {
        let first = match &self.comment {
            Some(c) => c.span(),
            None => Span::initial(),
        };
        first.merge(self.expr.span())
    }
}

/// The view of a source file.
pub struct SourceFileV {
    pub comment: Option<CommentV>,
    pub expr: ExprV,
}

impl View for SourceFile {
    type V = SourceFileV;

    open spec fn view(&self) -> SourceFileV {
        SourceFileV {
            comment: match self.comment {
                Some(c) => Some(c@),
                None => None,
            },
            expr: self.expr@,
        }
    }
}

/// A Nix expression.
#[derive(Debug)]
pub enum Expr {
    /// A parenthesized expression.
    ///
    /// This type of expression is only used to aid with serialization of the AST back into a token
    /// string.
    Paren(ExprParen),
    /// `foo`
    Ident(Ident),
    /// `${foo}`
    Interpolation(ExprInterpolation),
    /// `12`, `4.0`, `false`, `./foo/bar`, `null`, `http://www.example.com`
    Literal(Literal),
    /// `[1 2 3 4]`
    List(ExprList),
    /// `"foo"`, `''bar''`, `"baz ${quux}"`
    String(ExprString),
    /// `{ foo = "hello"; bar = 123; }`
    AttrSet(ExprSet),
    /// `-12`, `!true`
    Unary(ExprUnary),
    /// `1 + 1`, `true && false`, `"foo" + hello + "bar"`
    Binary(ExprBinary),
    /// `let { foo = "bar"; }`
    Let(ExprLet),
    /// `rec { foo = "bar"; }`
    Rec(ExprRec),
    /// `x.y`
    Proj(ExprProj),
    /// `if true then "success" else "failure"`
    If(ExprIf),
    /// `foo.bar or "failed"`
    Or(ExprOr),
    /// `assert true != false; true`
    Assert(ExprAssert),
    /// `with foo; foo.attr`
    With(ExprWith),
    /// `let foo = "bar"; in foo`
    LetIn(ExprLetIn),
    /// `foo: 1 + 2`, `{ x, y }: x + y`, `{ x, y } @ foo: x + y`
    FnDecl(ExprFnDecl),
    /// `foo one`
    FnApp(ExprFnApp),
    /// An invalid unparseable expression.
    Error(Span),
    /// Trap for halting the parser in place.
    Trap(Span),
}

/// The view of an expression: the tree with its texts as character sequences.
pub enum ExprV {
    Paren(Box<ExprV>, Span),
    Ident(IdentV),
    Interpolation(Box<ExprV>, Span),
    Literal(LiteralV),
    List(Seq<ExprV>, Span),
    String(Seq<FragmentV>, Span),
    AttrSet(Seq<BindV>, Span),
    Unary(UnaryOp, Box<ExprV>, Span),
    Binary(BinaryOp, Box<ExprV>, Box<ExprV>, Span),
    Let(Seq<BindV>, Span),
    Rec(Seq<BindV>, Span),
    Proj(Box<ExprV>, AttrPathV, Option<Box<ExprV>>, Span),
    If(Box<ExprV>, Box<ExprV>, Box<ExprV>, Span),
    Or(Box<ExprV>, Box<ExprV>, Span),
    Assert(Box<ExprV>, Box<ExprV>, Span),
    With(Box<ExprV>, Box<ExprV>, Span),
    LetIn(Seq<BindV>, Box<ExprV>, Span),
    FnSimple(IdentV, Box<ExprV>, Span),
    FnFormals(Seq<FormalV>, Option<Span>, Option<IdentV>, Box<ExprV>, Span),
    FnApp(Box<ExprV>, Box<ExprV>, Span),
    Error(Span),
    Trap(Span),
}

/// The view of a fragment of a string.
pub enum FragmentV {
    Literal(Seq<char>, Span),
    Interpolation(Box<ExprV>, Span),
}

/// The view of a binding.
pub enum BindV {
    Simple(Option<CommentV>, AttrPathV, Box<ExprV>, Span),
    Inherit(Seq<IdentV>, Span),
    InheritExpr(Box<ExprV>, Seq<IdentV>, Span),
}

/// The view of an attribute path.
pub struct AttrPathV {
    pub segments: Seq<AttrSegmentV>,
    pub span: Span,
}

/// The view of a segment of an attribute path.
pub enum AttrSegmentV {
    Ident(IdentV),
    Interpolation(Box<ExprV>, Span),
    String(Seq<FragmentV>, Span),
}

/// The view of a formal argument.
pub struct FormalV {
    pub name: IdentV,
    pub default: Option<Box<ExprV>>,
    pub span: Span,
}

/// The views of a sequence of identifiers.
pub open spec fn idents_view(s: Seq<Ident>) -> Seq<IdentV> {
    s.map_values(|i: Ident| i@)
}

/// The view of an optional comment.
pub open spec fn comment_opt_view(c: Option<Comment>) -> Option<CommentV> {
    match c {
        Some(c) => Some(c@),
        None => None,
    }
}

/// The view of an optional identifier.
pub open spec fn ident_opt_view(c: Option<Ident>) -> Option<IdentV> {
    match c {
        Some(c) => Some(c@),
        None => None,
    }
}

/// The view of an expression.
pub open spec fn expr_view(e: Expr) -> ExprV
    decreases e,
{
    match e {
        Expr::Paren(p) => ExprV::Paren(Box::new(expr_view(*p.expr)), p.span),
        Expr::Ident(i) => ExprV::Ident(i@),
        Expr::Interpolation(i) => ExprV::Interpolation(Box::new(expr_view(*i.inner)), i.span),
        Expr::Literal(l) => ExprV::Literal(l@),
        Expr::List(l) => ExprV::List(
            Seq::new(
                l.elems@.len(),
                |i: int|
                    if 0 <= i < l.elems@.len() {
                        expr_view(l.elems@[i])
                    } else {
                        ExprV::Trap(Span::spec_new(0, 0))
                    },
            ),
            l.span,
        ),
        Expr::String(s) => ExprV::String(
            Seq::new(
                s.0@.len(),
                |i: int|
                    if 0 <= i < s.0@.len() {
                        fragment_view(s.0@[i])
                    } else {
                        FragmentV::Literal(Seq::empty(), Span::spec_new(0, 0))
                    },
            ),
            s.1,
        ),
        Expr::AttrSet(s) => ExprV::AttrSet(binds_view_of(s.binds), s.span),
        Expr::Unary(u) => ExprV::Unary(u.op, Box::new(expr_view(*u.expr)), u.span),
        Expr::Binary(b) => ExprV::Binary(
            b.op,
            Box::new(expr_view(*b.lhs)),
            Box::new(expr_view(*b.rhs)),
            b.span,
        ),
        Expr::Let(l) => ExprV::Let(binds_view_of(l.binds), l.span),
        Expr::Rec(r) => ExprV::Rec(binds_view_of(r.binds), r.span),
        Expr::Proj(p) => ExprV::Proj(
            Box::new(expr_view(*p.base)),
            attr_path_view(p.attr),
            match p.fallback {
                Some(f) => Some(Box::new(expr_view(*f))),
                None => None,
            },
            p.span,
        ),
        Expr::If(i) => ExprV::If(
            Box::new(expr_view(*i.cond)),
            Box::new(expr_view(*i.body)),
            Box::new(expr_view(*i.fallback)),
            i.span,
        ),
        Expr::Or(o) => ExprV::Or(Box::new(expr_view(*o.expr)), Box::new(expr_view(*o.fallback)), o.span),
        Expr::Assert(a) => ExprV::Assert(
            Box::new(expr_view(*a.cond)),
            Box::new(expr_view(*a.expr)),
            a.span,
        ),
        Expr::With(w) => ExprV::With(Box::new(expr_view(*w.with)), Box::new(expr_view(*w.expr)), w.span),
        Expr::LetIn(l) => ExprV::LetIn(binds_view_of(l.binds), Box::new(expr_view(*l.body)), l.span),
        Expr::FnDecl(ExprFnDecl::Simple(f)) => ExprV::FnSimple(f.name@, Box::new(expr_view(*f.body)), f.span),
        Expr::FnDecl(ExprFnDecl::Formals(f)) => ExprV::FnFormals(
            Seq::new(
                f.formals@.len(),
                |i: int|
                    if 0 <= i < f.formals@.len() {
                        formal_view(f.formals@[i])
                    } else {
                        FormalV {
                            name: IdentV { name: Seq::empty(), span: Span::spec_new(0, 0) },
                            default: None,
                            span: Span::spec_new(0, 0),
                        }
                    },
            ),
            f.ellipsis,
            ident_opt_view(f.extra),
            Box::new(expr_view(*f.body)),
            f.span,
        ),
        Expr::FnApp(a) => ExprV::FnApp(
            Box::new(expr_view(*a.function)),
            Box::new(expr_view(*a.argument)),
            a.span,
        ),
        Expr::Error(s) => ExprV::Error(s),
        Expr::Trap(s) => ExprV::Trap(s),
    }
}

/// The views of a vector of bindings.
pub open spec fn binds_view_of(v: Vec<Bind>) -> Seq<BindV>
    decreases v,
{
    Seq::new(
        v@.len(),
        |i: int|
            if 0 <= i < v@.len() {
                bind_view(v@[i])
            } else {
                BindV::Inherit(Seq::empty(), Span::spec_new(0, 0))
            },
    )
}

/// The view of a string fragment.
pub open spec fn fragment_view(f: StringFragment) -> FragmentV
    decreases f,
{
    match f {
        StringFragment::Literal(t, s) => FragmentV::Literal(t@, s),
        StringFragment::Interpolation(i) => FragmentV::Interpolation(Box::new(expr_view(*i.inner)), i.span),
    }
}

/// The view of a binding.
pub open spec fn bind_view(b: Bind) -> BindV
    decreases b,
{
    match b {
        Bind::Simple(s) => BindV::Simple(
            comment_opt_view(s.comment),
            attr_path_view(s.attr),
            Box::new(expr_view(*s.expr)),
            s.span,
        ),
        Bind::Inherit(i) => BindV::Inherit(idents_view(i.names@), i.span),
        Bind::InheritExpr(i) => BindV::InheritExpr(
            Box::new(expr_view(*i.expr)),
            idents_view(i.names@),
            i.span,
        ),
    }
}

/// The view of an attribute path.
pub open spec fn attr_path_view(a: AttrPath) -> AttrPathV
    decreases a,
{
    AttrPathV {
        segments: Seq::new(
            a.0@.len(),
            |i: int|
                if 0 <= i < a.0@.len() {
                    segment_view(a.0@[i])
                } else {
                    AttrSegmentV::Ident(IdentV { name: Seq::empty(), span: Span::spec_new(0, 0) })
                },
        ),
        span: a.1,
    }
}

/// The view of a segment of an attribute path.
pub open spec fn segment_view(s: AttrSegment) -> AttrSegmentV
    decreases s,
{
    match s {
        AttrSegment::Ident(i) => AttrSegmentV::Ident(i@),
        AttrSegment::Interpolation(i) => AttrSegmentV::Interpolation(
            Box::new(expr_view(*i.inner)),
            i.span,
        ),
        AttrSegment::String(s) => AttrSegmentV::String(
            Seq::new(
                s.0@.len(),
                |i: int|
                    if 0 <= i < s.0@.len() {
                        fragment_view(s.0@[i])
                    } else {
                        FragmentV::Literal(Seq::empty(), Span::spec_new(0, 0))
                    },
            ),
            s.1,
        ),
    }
}

/// The view of a formal argument.
pub open spec fn formal_view(f: Formal) -> FormalV
    decreases f,
{
    FormalV {
        name: f.name@,
        default: match f.default {
            Some(d) => Some(Box::new(expr_view(*d))),
            None => None,
        },
        span: f.span,
    }
}


/// The views of a sequence of expressions.
pub open spec fn exprs_view(s: Seq<Expr>) -> Seq<ExprV> {
    s.map_values(|e: Expr| e@)
}

/// The views of a sequence of bindings.
pub open spec fn binds_view(s: Seq<Bind>) -> Seq<BindV> {
    s.map_values(|b: Bind| b@)
}

/// The views of a sequence of string fragments.
pub open spec fn fragments_view(s: Seq<StringFragment>) -> Seq<FragmentV> {
    s.map_values(|f: StringFragment| f@)
}

/// The views of a sequence of attribute path segments.
pub open spec fn segments_view(s: Seq<AttrSegment>) -> Seq<AttrSegmentV> {
    s.map_values(|a: AttrSegment| a@)
}

/// The views of a sequence of formal arguments.
pub open spec fn formals_view(s: Seq<Formal>) -> Seq<FormalV> {
    s.map_values(|f: Formal| f@)
}

/// The view of a vector of bindings is the sequence of their views.
pub proof fn lemma_binds_view(v: Vec<Bind>)
    ensures
        binds_view_of(v) == binds_view(v@),
{
    assert(binds_view_of(v) =~= binds_view(v@));
}

/// The views of the nodes that hold sequences, in terms of the views of their elements.
pub proof fn lemma_seq_views(e: Expr)
    ensures
        e matches Expr::List(l) ==> e@ == ExprV::List(exprs_view(l.elems@), l.span),
        e matches Expr::String(s) ==> e@ == ExprV::String(fragments_view(s.0@), s.1),
        e matches Expr::AttrSet(s) ==> e@ == ExprV::AttrSet(binds_view(s.binds@), s.span),
        e matches Expr::Rec(s) ==> e@ == ExprV::Rec(binds_view(s.binds@), s.span),
        e matches Expr::Let(s) ==> e@ == ExprV::Let(binds_view(s.binds@), s.span),
        e matches Expr::LetIn(s) ==> e@ == ExprV::LetIn(binds_view(s.binds@), Box::new(s.body@), s.span),
        e matches Expr::FnDecl(ExprFnDecl::Formals(f)) ==> e@ == ExprV::FnFormals(
            formals_view(f.formals@),
            f.ellipsis,
            ident_opt_view(f.extra),
            Box::new(f.body@),
            f.span,
        ),
{
    match e {
        Expr::List(l) => {
            assert(e@->List_0 =~= exprs_view(l.elems@));
        },
        Expr::String(s) => {
            assert(e@->String_0 =~= fragments_view(s.0@));
        },
        Expr::AttrSet(s) => {
            lemma_binds_view(s.binds);
        },
        Expr::Rec(s) => {
            lemma_binds_view(s.binds);
        },
        Expr::Let(s) => {
            lemma_binds_view(s.binds);
        },
        Expr::LetIn(s) => {
            lemma_binds_view(s.binds);
        },
        Expr::FnDecl(ExprFnDecl::Formals(f)) => {
            assert(e@->FnFormals_0 =~= formals_view(f.formals@));
        },
        _ => {},
    }
}

/// The view of an attribute path holds the views of its segments.
pub proof fn lemma_attr_path_view(a: AttrPath)
    ensures
        a@ == (AttrPathV { segments: segments_view(a.0@), span: a.1 }),
{
    assert(a@.segments =~= segments_view(a.0@));
}

/// The view of a string segment holds the views of its fragments.
pub proof fn lemma_segment_view(s: AttrSegment)
    ensures
        s matches AttrSegment::String(e) ==> s@ == AttrSegmentV::String(fragments_view(e.0@), e.1),
{
    if let AttrSegment::String(e) = s {
        assert(s@->String_0 =~= fragments_view(e.0@));
    }
}

impl View for Expr {
    type V = ExprV;

    open spec fn view(&self) -> ExprV {
        expr_view(*self)
    }
}

impl View for Bind {
    type V = BindV;

    open spec fn view(&self) -> BindV {
        bind_view(*self)
    }
}

impl View for AttrPath {
    type V = AttrPathV;

    open spec fn view(&self) -> AttrPathV {
        attr_path_view(*self)
    }
}

impl View for AttrSegment {
    type V = AttrSegmentV;

    open spec fn view(&self) -> AttrSegmentV {
        segment_view(*self)
    }
}

impl View for StringFragment {
    type V = FragmentV;

    open spec fn view(&self) -> FragmentV {
        fragment_view(*self)
    }
}

impl View for Formal {
    type V = FormalV;

    open spec fn view(&self) -> FormalV {
        formal_view(*self)
    }
}

impl ExprV {
    /// The span of the expression.
    pub open spec fn span(self) -> Span {
        match self {
            ExprV::Paren(_, s) => s,
            ExprV::Ident(i) => i.span,
            ExprV::Interpolation(_, s) => s,
            ExprV::Literal(l) => l.span(),
            ExprV::List(_, s) => s,
            ExprV::String(_, s) => s,
            ExprV::AttrSet(_, s) => s,
            ExprV::Unary(_, _, s) => s,
            ExprV::Binary(_, _, _, s) => s,
            ExprV::Let(_, s) => s,
            ExprV::Rec(_, s) => s,
            ExprV::Proj(_, _, _, s) => s,
            ExprV::If(_, _, _, s) => s,
            ExprV::Or(_, _, s) => s,
            ExprV::Assert(_, _, s) => s,
            ExprV::With(_, _, s) => s,
            ExprV::LetIn(_, _, s) => s,
            ExprV::FnSimple(_, _, s) => s,
            ExprV::FnFormals(_, _, _, _, s) => s,
            ExprV::FnApp(_, _, s) => s,
            ExprV::Error(s) => s,
            ExprV::Trap(s) => s,
        }
    }
}

impl Expr {
    /// The span of the expression.
    pub fn span(&self) -> (res: Span)
        ensures
            res == self@.span(),
    {
        match self {
            Expr::Paren(e) => e.span,
            Expr::Ident(e) => e.span,
            Expr::Interpolation(e) => e.span,
            Expr::Literal(e) => e.span(),
            Expr::List(e) => e.span,
            Expr::String(e) => e.1,
            Expr::AttrSet(e) => e.span,
            Expr::Unary(e) => e.span,
            Expr::Binary(e) => e.span,
            Expr::Let(e) => e.span,
            Expr::Rec(e) => e.span,
            Expr::Proj(e) => e.span,
            Expr::If(e) => e.span,
            Expr::Or(e) => e.span,
            Expr::Assert(e) => e.span,
            Expr::With(e) => e.span,
            Expr::LetIn(e) => e.span,
            Expr::FnDecl(ExprFnDecl::Simple(d)) => d.span,
            Expr::FnDecl(ExprFnDecl::Formals(d)) => d.span,
            Expr::FnApp(e) => e.span,
            Expr::Error(s) => *s,
            Expr::Trap(s) => *s,
        }
    }
}

/// A parenthesized expression.
#[derive(Debug)]
pub struct ExprParen {
    pub expr: Box<Expr>,
    pub span: Span,
}

impl ExprParen {
    /// Builds the node from its parts.
    pub fn new(expr: Box<Expr>, span: Span) -> (res: ExprParen)
        ensures
            res.expr == expr,
            res.span == span,
    {
        ExprParen { expr, span }
    }

    /// The `expr` part.
    pub fn expr(&self) -> (res: &Expr)
        ensures
            *res == *self.expr,
    {
        &self.expr
    }

    /// The span of the node.
    pub fn span(&self) -> (res: Span)
        ensures
            res == self.span,
    {
        self.span
    }
}

/// An interpolated expression, `${...}`.
#[derive(Debug)]
pub struct ExprInterpolation {
    pub inner: Box<Expr>,
    pub span: Span,
}

impl ExprInterpolation {
    /// Builds the node from its parts.
    pub fn new(inner: Box<Expr>, span: Span) -> (res: ExprInterpolation)
        ensures
            res.inner == inner,
            res.span == span,
    {
        ExprInterpolation { inner, span }
    }

    /// The `inner` part.
    pub fn inner(&self) -> (res: &Expr)
        ensures
            *res == *self.inner,
    {
        &self.inner
    }

    /// The span of the node.
    pub fn span(&self) -> (res: Span)
        ensures
            res == self.span,
    {
        self.span
    }
}

/// A list, `[...]`.
#[derive(Debug)]
pub struct ExprList {
    pub elems: Vec<Expr>,
    pub span: Span,
}

impl ExprList {
    /// Builds the node from its parts.
    pub fn new(elems: Vec<Expr>, span: Span) -> (res: ExprList)
        ensures
            res.elems == elems,
            res.span == span,
    {
        ExprList { elems, span }
    }

    /// The `elems` part.
    pub fn elems(&self) -> (res: &[Expr])
        ensures
            res@ == self.elems@,
    {
        self.elems.as_slice()
    }

    /// The span of the node.
    pub fn span(&self) -> (res: Span)
        ensures
            res == self.span,
    {
        self.span
    }
}

/// An attribute set, `{ ... }`.
#[derive(Debug)]
pub struct ExprSet {
    pub binds: Vec<Bind>,
    pub span: Span,
}

impl ExprSet {
    /// Builds the node from its parts.
    pub fn new(binds: Vec<Bind>, span: Span) -> (res: ExprSet)
        ensures
            res.binds == binds,
            res.span == span,
    {
        ExprSet { binds, span }
    }

    /// The `binds` part.
    pub fn binds(&self) -> (res: &[Bind])
        ensures
            res@ == self.binds@,
    {
        self.binds.as_slice()
    }

    /// The span of the node.
    pub fn span(&self) -> (res: Span)
        ensures
            res == self.span,
    {
        self.span
    }
}

/// A unary operation.
#[derive(Debug)]
pub struct ExprUnary {
    pub op: UnaryOp,
    pub expr: Box<Expr>,
    pub span: Span,
}

impl ExprUnary {
    /// Builds the node from its parts.
    pub fn new(op: UnaryOp, expr: Box<Expr>, span: Span) -> (res: ExprUnary)
        ensures
            res.op == op,
            res.expr == expr,
            res.span == span,
    {
        ExprUnary { op, expr, span }
    }

    /// The `op` part.
    pub fn op(&self) -> (res: UnaryOp)
        ensures
            res == self.op,
    {
        self.op
    }

    /// The `expr` part.
    pub fn expr(&self) -> (res: &Expr)
        ensures
            *res == *self.expr,
    {
        &self.expr
    }

    /// The span of the node.
    pub fn span(&self) -> (res: Span)
        ensures
            res == self.span,
    {
        self.span
    }
}

/// A binary operation.
#[derive(Debug)]
pub struct ExprBinary {
    pub op: BinaryOp,
    pub lhs: Box<Expr>,
    pub rhs: Box<Expr>,
    pub span: Span,
}

impl ExprBinary {
    /// Builds the node from its parts.
    pub fn new(op: BinaryOp, lhs: Box<Expr>, rhs: Box<Expr>, span: Span) -> (res: ExprBinary)
        ensures
            res.op == op,
            res.lhs == lhs,
            res.rhs == rhs,
            res.span == span,
    {
        ExprBinary { op, lhs, rhs, span }
    }

    /// The `op` part.
    pub fn op(&self) -> (res: BinaryOp)
        ensures
            res == self.op,
    {
        self.op
    }

    /// The `lhs` part.
    pub fn left(&self) -> (res: &Expr)
        ensures
            *res == *self.lhs,
    {
        &self.lhs
    }

    /// The `rhs` part.
    pub fn right(&self) -> (res: &Expr)
        ensures
            *res == *self.rhs,
    {
        &self.rhs
    }

    /// The span of the node.
    pub fn span(&self) -> (res: Span)
        ensures
            res == self.span,
    {
        self.span
    }
}

/// A binding `attr.path = expr;`, with an optional doc comment.
#[derive(Debug)]
pub struct BindSimple {
    pub comment: Option<Comment>,
    pub attr: AttrPath,
    pub expr: Box<Expr>,
    pub span: Span,
}

impl BindSimple {
    /// Builds the node from its parts.
    pub fn new(comment: Option<Comment>, attr: AttrPath, expr: Box<Expr>, span: Span) -> (res: BindSimple)
        ensures
            res.comment == comment,
            res.attr == attr,
            res.expr == expr,
            res.span == span,
    {
        BindSimple { comment, attr, expr, span }
    }

    /// The `comment` part, if any.
    pub fn comment(&self) -> (res: Option<&Comment>)
        ensures
            res matches Some(c) ==> self.comment == Some(*c),
            res is None ==> self.comment is None,
    {
        match &self.comment {
            Some(c) => Some(c),
            None => None,
        }
    }

    /// The `attr` part.
    pub fn attr(&self) -> (res: &AttrPath)
        ensures
            *res == self.attr,
    {
        &self.attr
    }

    /// The `expr` part.
    pub fn expr(&self) -> (res: &Expr)
        ensures
            *res == *self.expr,
    {
        &self.expr
    }

    /// The span of the node.
    pub fn span(&self) -> (res: Span)
        ensures
            res == self.span,
    {
        self.span
    }
}

/// A binding `inherit a b;`.
#[derive(Debug)]
pub struct BindInherit {
    pub names: Vec<Ident>,
    pub span: Span,
}

impl BindInherit {
    /// Builds the node from its parts.
    pub fn new(names: Vec<Ident>, span: Span) -> (res: BindInherit)
        ensures
            res.names == names,
            res.span == span,
    {
        BindInherit { names, span }
    }

    /// The `names` part.
    pub fn names(&self) -> (res: &[Ident])
        ensures
            res@ == self.names@,
    {
        self.names.as_slice()
    }

    /// The span of the node.
    pub fn span(&self) -> (res: Span)
        ensures
            res == self.span,
    {
        self.span
    }
}

/// A binding `inherit (expr) a b;`.
#[derive(Debug)]
pub struct BindInheritExpr {
    pub expr: Box<Expr>,
    pub names: Vec<Ident>,
    pub span: Span,
}

impl BindInheritExpr {
    /// Builds the node from its parts.
    pub fn new(expr: Box<Expr>, names: Vec<Ident>, span: Span) -> (res: BindInheritExpr)
        ensures
            res.expr == expr,
            res.names == names,
            res.span == span,
    {
        BindInheritExpr { expr, names, span }
    }

    /// The `expr` part.
    pub fn expr(&self) -> (res: &Expr)
        ensures
            *res == *self.expr,
    {
        &self.expr
    }

    /// The `names` part.
    pub fn names(&self) -> (res: &[Ident])
        ensures
            res@ == self.names@,
    {
        self.names.as_slice()
    }

    /// The span of the node.
    pub fn span(&self) -> (res: Span)
        ensures
            res == self.span,
    {
        self.span
    }
}

/// A legacy `let { ... }` expression.
#[derive(Debug)]
pub struct ExprLet {
    pub binds: Vec<Bind>,
    pub span: Span,
}

impl ExprLet {
    /// Builds the node from its parts.
    pub fn new(binds: Vec<Bind>, span: Span) -> (res: ExprLet)
        ensures
            res.binds == binds,
            res.span == span,
    {
        ExprLet { binds, span }
    }

    /// The `binds` part.
    pub fn binds(&self) -> (res: &[Bind])
        ensures
            res@ == self.binds@,
    {
        self.binds.as_slice()
    }

    /// The span of the node.
    pub fn span(&self) -> (res: Span)
        ensures
            res == self.span,
    {
        self.span
    }
}

/// A recursive set, `rec { ... }`.
#[derive(Debug)]
pub struct ExprRec {
    pub binds: Vec<Bind>,
    pub span: Span,
}

impl ExprRec {
    /// Builds the node from its parts.
    pub fn new(binds: Vec<Bind>, span: Span) -> (res: ExprRec)
        ensures
            res.binds == binds,
            res.span == span,
    {
        ExprRec { binds, span }
    }

    /// The `binds` part.
    pub fn binds(&self) -> (res: &[Bind])
        ensures
            res@ == self.binds@,
    {
        self.binds.as_slice()
    }

    /// The span of the node.
    pub fn span(&self) -> (res: Span)
        ensures
            res == self.span,
    {
        self.span
    }
}

/// A projection `base.attr.path`, with an optional fallback.
#[derive(Debug)]
pub struct ExprProj {
    pub base: Box<Expr>,
    pub attr: AttrPath,
    pub fallback: Option<Box<Expr>>,
    pub span: Span,
}

impl ExprProj {
    /// Builds the node from its parts.
    pub fn new(base: Box<Expr>, attr: AttrPath, fallback: Option<Box<Expr>>, span: Span) -> (res: ExprProj)
        ensures
            res.base == base,
            res.attr == attr,
            res.fallback == fallback,
            res.span == span,
    {
        ExprProj { base, attr, fallback, span }
    }

    /// The `base` part.
    pub fn base(&self) -> (res: &Expr)
        ensures
            *res == *self.base,
    {
        &self.base
    }

    /// The `attr` part.
    pub fn attr(&self) -> (res: &AttrPath)
        ensures
            *res == self.attr,
    {
        &self.attr
    }

    /// The `fallback` part, if any.
    pub fn fallback(&self) -> (res: Option<&Expr>)
        ensures
            res matches Some(e) ==> (self.fallback matches Some(b) && *b == *e),
            res is None ==> self.fallback is None,
    {
        match &self.fallback {
            Some(e) => Some(&**e),
            None => None,
        }
    }

    /// The span of the node.
    pub fn span(&self) -> (res: Span)
        ensures
            res == self.span,
    {
        self.span
    }
}

/// A conditional, `if c then a else b`.
#[derive(Debug)]
pub struct ExprIf {
    pub cond: Box<Expr>,
    pub body: Box<Expr>,
    pub fallback: Box<Expr>,
    pub span: Span,
}

impl ExprIf {
    /// Builds the node from its parts.
    pub fn new(cond: Box<Expr>, body: Box<Expr>, fallback: Box<Expr>, span: Span) -> (res: ExprIf)
        ensures
            res.cond == cond,
            res.body == body,
            res.fallback == fallback,
            res.span == span,
    {
        ExprIf { cond, body, fallback, span }
    }

    /// The `cond` part.
    pub fn condition(&self) -> (res: &Expr)
        ensures
            *res == *self.cond,
    {
        &self.cond
    }

    /// The `body` part.
    pub fn body(&self) -> (res: &Expr)
        ensures
            *res == *self.body,
    {
        &self.body
    }

    /// The `fallback` part.
    pub fn fallback(&self) -> (res: &Expr)
        ensures
            *res == *self.fallback,
    {
        &self.fallback
    }

    /// The span of the node.
    pub fn span(&self) -> (res: Span)
        ensures
            res == self.span,
    {
        self.span
    }
}

/// A fallback, `e or d`.
#[derive(Debug)]
pub struct ExprOr {
    pub expr: Box<Expr>,
    pub fallback: Box<Expr>,
    pub span: Span,
}

impl ExprOr {
    /// Builds the node from its parts.
    pub fn new(expr: Box<Expr>, fallback: Box<Expr>, span: Span) -> (res: ExprOr)
        ensures
            res.expr == expr,
            res.fallback == fallback,
            res.span == span,
    {
        ExprOr { expr, fallback, span }
    }

    /// The `expr` part.
    pub fn expr(&self) -> (res: &Expr)
        ensures
            *res == *self.expr,
    {
        &self.expr
    }

    /// The `fallback` part.
    pub fn fallback(&self) -> (res: &Expr)
        ensures
            *res == *self.fallback,
    {
        &self.fallback
    }

    /// The span of the node.
    pub fn span(&self) -> (res: Span)
        ensures
            res == self.span,
    {
        self.span
    }
}

/// An assertion, `assert c; e`.
#[derive(Debug)]
pub struct ExprAssert {
    pub cond: Box<Expr>,
    pub expr: Box<Expr>,
    pub span: Span,
}

impl ExprAssert {
    /// Builds the node from its parts.
    pub fn new(cond: Box<Expr>, expr: Box<Expr>, span: Span) -> (res: ExprAssert)
        ensures
            res.cond == cond,
            res.expr == expr,
            res.span == span,
    {
        ExprAssert { cond, expr, span }
    }

    /// The `cond` part.
    pub fn condition(&self) -> (res: &Expr)
        ensures
            *res == *self.cond,
    {
        &self.cond
    }

    /// The `expr` part.
    pub fn expr(&self) -> (res: &Expr)
        ensures
            *res == *self.expr,
    {
        &self.expr
    }

    /// The span of the node.
    pub fn span(&self) -> (res: Span)
        ensures
            res == self.span,
    {
        self.span
    }
}

/// A scope, `with e; body`.
#[derive(Debug)]
pub struct ExprWith {
    pub with: Box<Expr>,
    pub expr: Box<Expr>,
    pub span: Span,
}

impl ExprWith {
    /// Builds the node from its parts.
    pub fn new(with: Box<Expr>, expr: Box<Expr>, span: Span) -> (res: ExprWith)
        ensures
            res.with == with,
            res.expr == expr,
            res.span == span,
    {
        ExprWith { with, expr, span }
    }

    /// The `with` part.
    pub fn with(&self) -> (res: &Expr)
        ensures
            *res == *self.with,
    {
        &self.with
    }

    /// The `expr` part.
    pub fn expr(&self) -> (res: &Expr)
        ensures
            *res == *self.expr,
    {
        &self.expr
    }

    /// The span of the node.
    pub fn span(&self) -> (res: Span)
        ensures
            res == self.span,
    {
        self.span
    }
}

/// A `let ... in body` expression.
#[derive(Debug)]
pub struct ExprLetIn {
    pub binds: Vec<Bind>,
    pub body: Box<Expr>,
    pub span: Span,
}

impl ExprLetIn {
    /// Builds the node from its parts.
    pub fn new(binds: Vec<Bind>, body: Box<Expr>, span: Span) -> (res: ExprLetIn)
        ensures
            res.binds == binds,
            res.body == body,
            res.span == span,
    {
        ExprLetIn { binds, body, span }
    }

    /// The `binds` part.
    pub fn binds(&self) -> (res: &[Bind])
        ensures
            res@ == self.binds@,
    {
        self.binds.as_slice()
    }

    /// The `body` part.
    pub fn body(&self) -> (res: &Expr)
        ensures
            *res == *self.body,
    {
        &self.body
    }

    /// The span of the node.
    pub fn span(&self) -> (res: Span)
        ensures
            res == self.span,
    {
        self.span
    }
}

/// A function `name: body`.
#[derive(Debug)]
pub struct FnDeclSimple {
    pub name: Ident,
    pub body: Box<Expr>,
    pub span: Span,
}

impl FnDeclSimple {
    /// Builds the node from its parts.
    pub fn new(name: Ident, body: Box<Expr>, span: Span) -> (res: FnDeclSimple)
        ensures
            res.name == name,
            res.body == body,
            res.span == span,
    {
        FnDeclSimple { name, body, span }
    }

    /// The `name` part.
    pub fn name(&self) -> (res: &Ident)
        ensures
            *res == self.name,
    {
        &self.name
    }

    /// The `body` part.
    pub fn body(&self) -> (res: &Expr)
        ensures
            *res == *self.body,
    {
        &self.body
    }

    /// The span of the node.
    pub fn span(&self) -> (res: Span)
        ensures
            res == self.span,
    {
        self.span
    }
}

/// A formal argument `name` or `name ? default`.
#[derive(Debug)]
pub struct Formal {
    pub name: Ident,
    pub default: Option<Box<Expr>>,
    pub span: Span,
}

impl Formal {
    /// Builds the node from its parts.
    pub fn new(name: Ident, default: Option<Box<Expr>>, span: Span) -> (res: Formal)
        ensures
            res.name == name,
            res.default == default,
            res.span == span,
    {
        Formal { name, default, span }
    }

    /// The `name` part.
    pub fn name(&self) -> (res: &Ident)
        ensures
            *res == self.name,
    {
        &self.name
    }

    /// The `default` part, if any.
    pub fn default(&self) -> (res: Option<&Expr>)
        ensures
            res matches Some(e) ==> (self.default matches Some(b) && *b == *e),
            res is None ==> self.default is None,
    {
        match &self.default {
            Some(e) => Some(&**e),
            None => None,
        }
    }

    /// The span of the node.
    pub fn span(&self) -> (res: Span)
        ensures
            res == self.span,
    {
        self.span
    }
}

/// A function `{ formals, ... } @ extra: body`.
#[derive(Debug)]
pub struct FnDeclFormals {
    pub formals: Vec<Formal>,
    pub ellipsis: Option<Span>,
    pub extra: Option<Ident>,
    pub body: Box<Expr>,
    pub span: Span,
}

impl FnDeclFormals {
    /// Builds the node from its parts.
    pub fn new(formals: Vec<Formal>, ellipsis: Option<Span>, extra: Option<Ident>, body: Box<Expr>, span: Span) -> (res: FnDeclFormals)
        ensures
            res.formals == formals,
            res.ellipsis == ellipsis,
            res.extra == extra,
            res.body == body,
            res.span == span,
    {
        FnDeclFormals { formals, ellipsis, extra, body, span }
    }

    /// The `formals` part.
    pub fn formals(&self) -> (res: &[Formal])
        ensures
            res@ == self.formals@,
    {
        self.formals.as_slice()
    }

    /// The `body` part.
    pub fn body(&self) -> (res: &Expr)
        ensures
            *res == *self.body,
    {
        &self.body
    }

    /// The span of the node.
    pub fn span(&self) -> (res: Span)
        ensures
            res == self.span,
    {
        self.span
    }
}

/// A function application, `f x`.
#[derive(Debug)]
pub struct ExprFnApp {
    pub function: Box<Expr>,
    pub argument: Box<Expr>,
    pub span: Span,
}

impl ExprFnApp {
    /// Builds the node from its parts.
    pub fn new(function: Box<Expr>, argument: Box<Expr>, span: Span) -> (res: ExprFnApp)
        ensures
            res.function == function,
            res.argument == argument,
            res.span == span,
    {
        ExprFnApp { function, argument, span }
    }

    /// The `function` part.
    pub fn function(&self) -> (res: &Expr)
        ensures
            *res == *self.function,
    {
        &self.function
    }

    /// The `argument` part.
    pub fn argument(&self) -> (res: &Expr)
        ensures
            *res == *self.argument,
    {
        &self.argument
    }

    /// The span of the node.
    pub fn span(&self) -> (res: Span)
        ensures
            res == self.span,
    {
        self.span
    }
}

/// A string: literal text and interpolations.
#[derive(Debug)]
pub struct ExprString(pub Vec<StringFragment>, pub Span);

impl ExprString {
    /// A string made of the given fragments.
    pub fn new(fragments: Vec<StringFragment>, span: Span) -> (res: ExprString)
        ensures
            res.0 == fragments,
            res.1 == span,
    {
        ExprString(fragments, span)
    }

    /// The fragments of the string.
    pub fn fragments(&self) -> (res: &[StringFragment])
        ensures
            res@ == self.0@,
    {
        self.0.as_slice()
    }

    /// The span of the string.
    pub fn span(&self) -> (res: Span)
        ensures
            res == self.1,
    {
        self.1
    }
}

/// A piece of a string.
#[derive(Debug)]
pub enum StringFragment {
    Literal(String, Span),
    Interpolation(ExprInterpolation),
}

impl StringFragment {
    /// The span of the fragment.
    pub fn span(&self) -> (res: Span)
        ensures
            res == (match *self {
                StringFragment::Literal(_, s) => s,
                StringFragment::Interpolation(i) => i.span,
            }),
    {
        match self {
            StringFragment::Literal(_, s) => *s,
            StringFragment::Interpolation(i) => i.span,
        }
    }
}

/// A unary operator.
#[derive(Clone, Copy, Debug, PartialEq, Eq, Structural)]
pub enum UnaryOp {
    /// The unary `-` operator.
    Neg,
    /// The unary `!` operator.
    Not,
}

/// A binary operator.
#[derive(Clone, Copy, Debug, PartialEq, Eq, Structural)]
pub enum BinaryOp {
    /// The binary `+` operator.
    Add,
    /// The binary `-` operator.
    Sub,
    /// The binary `*` operator.
    Mul,
    /// The binary `/` operator.
    Div,
    /// The binary `==` operator.
    Eq,
    /// The binary `!=` operator.
    NotEq,
    /// The binary `<` operator.
    LessThan,
    /// The binary `<=` operator.
    LessThanEq,
    /// The binary `>` operator.
    GreaterThan,
    /// The binary `>=` operator.
    GreaterThanEq,
    /// The binary `&&` operator.
    And,
    /// The binary `||` operator.
    Or,
    /// The binary `++` operator.
    Concat,
    /// The binary `//` operator.
    Update,
    /// The binary `?` operator.
    HasAttr,
    /// The binary `->` operator.
    Impl,
}

/// A binding in a set or a `let`.
#[derive(Debug)]
pub enum Bind {
    Simple(BindSimple),
    Inherit(BindInherit),
    InheritExpr(BindInheritExpr),
}

impl BindV {
    /// The span of the binding.
    pub open spec fn span(self) -> Span {
        match self {
            BindV::Simple(_, _, _, s) => s,
            BindV::Inherit(_, s) => s,
            BindV::InheritExpr(_, _, s) => s,
        }
    }
}

impl Bind {
    /// The span of the binding.
    pub fn span(&self) -> (res: Span)
        ensures
            res == self@.span(),
    {
        match self {
            Bind::Simple(b) => b.span,
            Bind::Inherit(b) => b.span,
            Bind::InheritExpr(b) => b.span,
        }
    }
}

/// An attribute path, `a.b."c".${d}`.
#[derive(Debug)]
pub struct AttrPath(pub Vec<AttrSegment>, pub Span);

/// The span that an attribute path with these segments covers: from its first segment to
/// its last one, or the empty span at offset 0 when there is none.
pub open spec fn attr_path_span(segments: Seq<AttrSegmentV>) -> Span {
    if segments.len() == 0 {
        Span::spec_new(0, 0)
    } else {
        segments[0].span().spec_merge(segments.last().span())
    }
}

impl AttrSegmentV {
    /// The span of the segment.
    pub open spec fn span(self) -> Span {
        match self {
            AttrSegmentV::Ident(i) => i.span,
            AttrSegmentV::Interpolation(_, s) => s,
            AttrSegmentV::String(_, s) => s,
        }
    }
}

impl AttrSegment {
    /// The span of the segment.
    pub fn span(&self) -> (res: Span)
        ensures
            res == self@.span(),
    {
        match self {
            AttrSegment::Ident(i) => i.span,
            AttrSegment::Interpolation(i) => i.span,
            AttrSegment::String(s) => s.1,
        }
    }
}

impl AttrPath {
    /// The path with the given segments; its span runs from the first to the last segment.
    pub fn new(segments: Vec<AttrSegment>) -> (res: AttrPath)
        ensures
            res.0 == segments,
            res@.span == attr_path_span(res@.segments),
    {
        let n = segments.len();
        let span = if n == 0 {
            Span::initial()
        } else {
            segments[0].span().merge(segments[n - 1].span())
        };
        let res = AttrPath(segments, span);
        proof {
            if n > 0 {
                assert(res@.segments[0] == segments@[0]@);
                assert(res@.segments.last() == segments@[n - 1]@);
            }
        }
        res
    }

    /// The segments of the path.
    pub fn segments(&self) -> (res: &[AttrSegment])
        ensures
            res@ == self.0@,
    {
        self.0.as_slice()
    }

    /// The span of the path.
    pub fn span(&self) -> (res: Span)
        ensures
            res == self.1,
    {
        self.1
    }
}

/// A segment of an attribute path.
#[derive(Debug)]
pub enum AttrSegment {
    Ident(Ident),
    Interpolation(ExprInterpolation),
    String(ExprString),
}

/// A function declaration.
#[derive(Debug)]
pub enum ExprFnDecl {
    Simple(FnDeclSimple),
    Formals(FnDeclFormals),
}

impl ExprFnDecl {
    /// The span of the declaration.
    pub fn span(&self) -> (res: Span)
        ensures
            res == (match *self {
                ExprFnDecl::Simple(d) => d.span,
                ExprFnDecl::Formals(d) => d.span,
            }),
    {
        match self {
            ExprFnDecl::Simple(d) => d.span,
            ExprFnDecl::Formals(d) => d.span,
        }
    }
}

// ---------------------------------------------------------------------------------------
// The views of the nodes: the tree each one stands for.

impl View for ExprParen {
    type V = ExprV;

    open spec fn view(&self) -> ExprV {
        ExprV::Paren(Box::new(self.expr@), self.span)
    }
}

impl View for ExprInterpolation {
    type V = ExprV;

    open spec fn view(&self) -> ExprV {
        ExprV::Interpolation(Box::new(self.inner@), self.span)
    }
}

impl View for ExprList {
    type V = ExprV;

    open spec fn view(&self) -> ExprV {
        ExprV::List(exprs_view(self.elems@), self.span)
    }
}

impl View for ExprSet {
    type V = ExprV;

    open spec fn view(&self) -> ExprV {
        ExprV::AttrSet(binds_view(self.binds@), self.span)
    }
}

impl View for ExprString {
    type V = ExprV;

    open spec fn view(&self) -> ExprV {
        ExprV::String(fragments_view(self.0@), self.1)
    }
}

impl View for ExprUnary {
    type V = ExprV;

    open spec fn view(&self) -> ExprV {
        ExprV::Unary(self.op, Box::new(self.expr@), self.span)
    }
}

impl View for ExprBinary {
    type V = ExprV;

    open spec fn view(&self) -> ExprV {
        ExprV::Binary(self.op, Box::new(self.lhs@), Box::new(self.rhs@), self.span)
    }
}

impl View for ExprLet {
    type V = ExprV;

    open spec fn view(&self) -> ExprV {
        ExprV::Let(binds_view(self.binds@), self.span)
    }
}

impl View for ExprRec {
    type V = ExprV;

    open spec fn view(&self) -> ExprV {
        ExprV::Rec(binds_view(self.binds@), self.span)
    }
}

impl View for ExprProj {
    type V = ExprV;

    open spec fn view(&self) -> ExprV {
        ExprV::Proj(
            Box::new(self.base@),
            self.attr@,
            match self.fallback {
                Some(f) => Some(Box::new(f@)),
                None => None,
            },
            self.span,
        )
    }
}

impl View for ExprIf {
    type V = ExprV;

    open spec fn view(&self) -> ExprV {
        ExprV::If(Box::new(self.cond@), Box::new(self.body@), Box::new(self.fallback@), self.span)
    }
}

impl View for ExprOr {
    type V = ExprV;

    open spec fn view(&self) -> ExprV {
        ExprV::Or(Box::new(self.expr@), Box::new(self.fallback@), self.span)
    }
}

impl View for ExprAssert {
    type V = ExprV;

    open spec fn view(&self) -> ExprV {
        ExprV::Assert(Box::new(self.cond@), Box::new(self.expr@), self.span)
    }
}

impl View for ExprWith {
    type V = ExprV;

    open spec fn view(&self) -> ExprV {
        ExprV::With(Box::new(self.with@), Box::new(self.expr@), self.span)
    }
}

impl View for ExprLetIn {
    type V = ExprV;

    open spec fn view(&self) -> ExprV {
        ExprV::LetIn(binds_view(self.binds@), Box::new(self.body@), self.span)
    }
}

impl View for FnDeclSimple {
    type V = ExprV;

    open spec fn view(&self) -> ExprV {
        ExprV::FnSimple(self.name@, Box::new(self.body@), self.span)
    }
}

impl View for FnDeclFormals {
    type V = ExprV;

    open spec fn view(&self) -> ExprV {
        ExprV::FnFormals(
            formals_view(self.formals@),
            self.ellipsis,
            ident_opt_view(self.extra),
            Box::new(self.body@),
            self.span,
        )
    }
}

impl View for ExprFnApp {
    type V = ExprV;

    open spec fn view(&self) -> ExprV {
        ExprV::FnApp(Box::new(self.function@), Box::new(self.argument@), self.span)
    }
}

impl View for ExprFnDecl {
    type V = ExprV;

    open spec fn view(&self) -> ExprV {
        Expr::FnDecl(*self)@
    }
}

impl View for BindSimple {
    type V = BindV;

    open spec fn view(&self) -> BindV {
        BindV::Simple(
            comment_opt_view(self.comment),
            self.attr@,
            Box::new(self.expr@),
            self.span,
        )
    }
}

impl View for BindInherit {
    type V = BindV;

    open spec fn view(&self) -> BindV {
        BindV::Inherit(idents_view(self.names@), self.span)
    }
}

impl View for BindInheritExpr {
    type V = BindV;

    open spec fn view(&self) -> BindV {
        BindV::InheritExpr(Box::new(self.expr@), idents_view(self.names@), self.span)
    }
}

} // verus!
