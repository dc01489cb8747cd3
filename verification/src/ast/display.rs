//! Rendering the syntax tree back into Nix source text.

use vstd::prelude::*;

use crate::ast::tokens::{Comment, CommentV, Ident, IdentV, Literal, LiteralV};
use crate::ast::{
    binds_view, exprs_view, formals_view, fragments_view, idents_view, lemma_attr_path_view,
    lemma_segment_view, lemma_seq_views, segments_view, AttrPath, AttrPathV, AttrSegment,
    AttrSegmentV, BinaryOp, Bind, BindInherit, BindInheritExpr, BindSimple, BindV, Expr, ExprAssert,
    ExprBinary, ExprFnApp, ExprFnDecl, ExprIf, ExprInterpolation, ExprLet, ExprLetIn, ExprList,
    ExprOr, ExprParen, ExprProj, ExprRec, ExprSet, ExprString, ExprUnary, ExprV, ExprWith,
    FnDeclFormals, FnDeclSimple, Formal, FormalV, FragmentV, SourceFile, StringFragment, UnaryOp,
};

verus! {

/// The texts of `parts`, with `sep` between each two of them.
pub open spec fn join_texts(parts: Seq<Seq<char>>, sep: Seq<char>) -> Seq<char>
    decreases parts.len(),
{
    if parts.len() == 0 {
        Seq::empty()
    } else if parts.len() == 1 {
        parts[0]
    } else {
        join_texts(parts.drop_last(), sep) + sep + parts.last()
    }
}

/// The symbol of a unary operator.
pub open spec fn unary_symbol(op: UnaryOp) -> Seq<char> {
    match op {
        UnaryOp::Neg => "-"@,
        UnaryOp::Not => "!"@,
    }
}

/// The symbol of a binary operator.
pub open spec fn binary_symbol(op: BinaryOp) -> Seq<char> {
    match op {
        BinaryOp::Add => "+"@,
        BinaryOp::Sub => "-"@,
        BinaryOp::Mul => "*"@,
        BinaryOp::Div => "/"@,
        BinaryOp::Eq => "=="@,
        BinaryOp::NotEq => "!="@,
        BinaryOp::LessThan => "<"@,
        BinaryOp::LessThanEq => "<="@,
        BinaryOp::GreaterThan => ">"@,
        BinaryOp::GreaterThanEq => ">="@,
        BinaryOp::And => "&&"@,
        BinaryOp::Or => "||"@,
        BinaryOp::Concat => "++"@,
        BinaryOp::Update => "//"@,
        BinaryOp::HasAttr => "?"@,
        BinaryOp::Impl => "->"@,
    }
}

/// The text of an identifier: its name.
pub open spec fn ident_text(i: IdentV) -> Seq<char> {
    i.name
}

/// The text of a literal.
pub open spec fn literal_text(l: LiteralV) -> Seq<char> {
    match l {
        LiteralV::Null(_) => "null"@,
        LiteralV::Boolean(b, _) => if b {
            "true"@
        } else {
            "false"@
        },
        LiteralV::Float(t, _) => t,
        LiteralV::Integer(t, _) => t,
        LiteralV::Path(t, _) => t,
        LiteralV::PathTemplate(t, _) => t,
        LiteralV::Uri(t, _) => t,
    }
}

/// What a character of a comment's text becomes: a line break starts a new comment line.
pub open spec fn comment_piece(c: char) -> Seq<char> {
    if c == '\n' {
        "\n#"@
    } else {
        seq![c]
    }
}

/// The text of a comment with `#` after every line break.
pub open spec fn comment_lines(t: Seq<char>) -> Seq<char>
    decreases t.len(),
{
    if t.len() == 0 {
        Seq::empty()
    } else {
        comment_lines(t.drop_last()) + comment_piece(t.last())
    }
}

/// The text of a comment: each of its lines opened by `#`, and a final line break.
pub open spec fn comment_text(c: CommentV) -> Seq<char> {
    "#"@ + comment_lines(c.text) + "\n"@
}

/// The texts of the names, separated by spaces.
pub open spec fn names_text(names: Seq<IdentV>) -> Seq<char> {
    join_texts(names_texts(names), " "@)
}

/// The texts of the names, in order.
pub open spec fn names_texts(names: Seq<IdentV>) -> Seq<Seq<char>> {
    Seq::new(names.len(), |i: int| ident_text(names[i]))
}

/// The text of an expression.
pub open spec fn expr_text(e: ExprV) -> Seq<char>
    decreases e,
{
    match e {
        ExprV::Paren(b, _) => "("@ + expr_text(*b) + ")"@,
        ExprV::Ident(i) => ident_text(i),
        ExprV::Interpolation(b, _) => "${"@ + expr_text(*b) + "}"@,
        ExprV::Literal(l) => literal_text(l),
        ExprV::List(es, _) => "["@ + join_texts(exprs_texts(es), " "@) + "]"@,
        ExprV::String(fs, _) => "\""@ + join_texts(fragments_texts(fs), Seq::empty()) + "\""@,
        ExprV::AttrSet(bs, _) => "{"@ + join_texts(binds_texts(bs), " "@) + "}"@,
        ExprV::Unary(op, b, _) => unary_symbol(op) + expr_text(*b),
        ExprV::Binary(op, l, r, _) => expr_text(*l) + " "@ + binary_symbol(op) + " "@ + expr_text(
            *r,
        ),
        ExprV::Let(bs, _) => "let {"@ + join_texts(binds_texts(bs), " "@) + "}"@,
        ExprV::Rec(bs, _) => "rec {"@ + join_texts(binds_texts(bs), " "@) + "}"@,
        ExprV::Proj(b, p, f, _) => match f {
            Some(x) => expr_text(*b) + "."@ + path_text(p) + " or "@ + expr_text(*x),
            None => expr_text(*b) + "."@ + path_text(p),
        },
        ExprV::If(c, b, f, _) => "if "@ + expr_text(*c) + " then "@ + expr_text(*b) + " else "@
            + expr_text(*f),
        ExprV::Or(a, b, _) => expr_text(*a) + " or "@ + expr_text(*b),
        ExprV::Assert(a, b, _) => "assert "@ + expr_text(*a) + "; "@ + expr_text(*b),
        ExprV::With(a, b, _) => "with "@ + expr_text(*a) + "; "@ + expr_text(*b),
        ExprV::LetIn(bs, b, _) => "let "@ + join_texts(binds_texts(bs), " "@) + " in "@ + expr_text(*b),
        ExprV::FnSimple(n, b, _) => ident_text(n) + ": "@ + expr_text(*b),
        ExprV::FnFormals(fs, ellipsis, extra, _, _) => {
            let rest = match ellipsis {
                Some(_) => if fs.len() == 0 {
                    "..."@
                } else {
                    ", ..."@
                },
                None => Seq::empty(),
            };
            let at = match extra {
                Some(n) => "@"@ + ident_text(n),
                None => Seq::empty(),
            };
            "{"@ + join_texts(formals_texts(fs), ", "@) + rest + "}"@ + at + ":"@
        },
        ExprV::FnApp(a, b, _) => expr_text(*a) + " "@ + expr_text(*b),
        ExprV::Error(_) => "<error>"@,
        ExprV::Trap(_) => "trap"@,
    }
}

/// The texts of the bindings, in order.
pub open spec fn binds_texts(bs: Seq<BindV>) -> Seq<Seq<char>>
    decreases bs,
{
        Seq::new(
            bs.len(),
            |i: int|
                if 0 <= i < bs.len() {
                    bind_text(bs[i])
                } else {
                    Seq::empty()
                },
        )
}

/// The texts of the expressions, in order.
pub open spec fn exprs_texts(es: Seq<ExprV>) -> Seq<Seq<char>>
    decreases es,
{
    Seq::new(
        es.len(),
        |i: int|
            if 0 <= i < es.len() {
                expr_text(es[i])
            } else {
                Seq::empty()
            },
    )
}

/// The texts of the string fragments, in order.
pub open spec fn fragments_texts(fs: Seq<FragmentV>) -> Seq<Seq<char>>
    decreases fs,
{
    Seq::new(
        fs.len(),
        |i: int|
            if 0 <= i < fs.len() {
                fragment_text(fs[i])
            } else {
                Seq::empty()
            },
    )
}

/// The texts of the formal arguments, in order.
pub open spec fn formals_texts(fs: Seq<FormalV>) -> Seq<Seq<char>>
    decreases fs,
{
    Seq::new(
        fs.len(),
        |i: int|
            if 0 <= i < fs.len() {
                formal_text(fs[i])
            } else {
                Seq::empty()
            },
    )
}

/// The texts of the path segments, in order.
pub open spec fn segments_texts(ss: Seq<AttrSegmentV>) -> Seq<Seq<char>>
    decreases ss,
{
    Seq::new(
        ss.len(),
        |i: int|
            if 0 <= i < ss.len() {
                segment_text(ss[i])
            } else {
                Seq::empty()
            },
    )
}

/// The text of a string fragment.
pub open spec fn fragment_text(f: FragmentV) -> Seq<char>
    decreases f,
{
    match f {
        FragmentV::Literal(t, _) => t,
        FragmentV::Interpolation(b, _) => "${"@ + expr_text(*b) + "}"@,
    }
}

/// The text of a binding.
pub open spec fn bind_text(b: BindV) -> Seq<char>
    decreases b,
{
    match b {
        BindV::Simple(c, p, e, _) => {
            let doc = match c {
                Some(c) => comment_text(c),
                None => Seq::empty(),
            };
            doc + path_text(p) + " = "@ + expr_text(*e) + ";"@
        },
        BindV::Inherit(names, _) => "inherit "@ + names_text(names) + ";"@,
        BindV::InheritExpr(e, names, _) => "inherit ("@ + expr_text(*e) + ") "@ + names_text(names)
            + ";"@,
    }
}

/// The text of an attribute path: its segments separated by dots.
pub open spec fn path_text(p: AttrPathV) -> Seq<char>
    decreases p,
{
    join_texts(segments_texts(p.segments), "."@)
}

/// The text of a segment of an attribute path.
pub open spec fn segment_text(s: AttrSegmentV) -> Seq<char>
    decreases s,
{
    match s {
        AttrSegmentV::Ident(i) => ident_text(i),
        AttrSegmentV::Interpolation(b, _) => "${"@ + expr_text(*b) + "}"@,
        AttrSegmentV::String(fs, _) => "\""@ + join_texts(fragments_texts(fs), Seq::empty())
            + "\""@,
    }
}

/// The text of a formal argument: its name, and ` ? ` and its default where it has one.
pub open spec fn formal_text(f: FormalV) -> Seq<char>
    decreases f,
{
    match f.default {
        Some(d) => ident_text(f.name) + " ? "@ + expr_text(*d),
        None => ident_text(f.name),
    }
}

/// One more part extends the joined text by the separator and that part.
pub proof fn lemma_join_step(parts: Seq<Seq<char>>, sep: Seq<char>, i: int)
    requires
        0 <= i < parts.len(),
    ensures
        join_texts(parts.take(i + 1), sep) == if i == 0 {
            parts[0]
        } else {
            join_texts(parts.take(i), sep) + sep + parts[i]
        },
{
    assert(parts.take(i + 1).drop_last() =~= parts.take(i));
}

impl UnaryOp {
    /// The symbol of the operator.
    pub fn symbol(self) -> (res: &'static str)
        ensures
            res@ == unary_symbol(self),
    {
        match self {
            UnaryOp::Neg => "-",
            UnaryOp::Not => "!",
        }
    }

    /// The operator as Nix source text.
    pub fn to_string(self) -> (res: String)
        ensures
            res@ == unary_symbol(self),
    {
        String::from_str(self.symbol())
    }
}

impl BinaryOp {
    /// The symbol of the operator.
    pub fn symbol(self) -> (res: &'static str)
        ensures
            res@ == binary_symbol(self),
    {
        match self {
            BinaryOp::Add => "+",
            BinaryOp::Sub => "-",
            BinaryOp::Mul => "*",
            BinaryOp::Div => "/",
            BinaryOp::Eq => "==",
            BinaryOp::NotEq => "!=",
            BinaryOp::LessThan => "<",
            BinaryOp::LessThanEq => "<=",
            BinaryOp::GreaterThan => ">",
            BinaryOp::GreaterThanEq => ">=",
            BinaryOp::And => "&&",
            BinaryOp::Or => "||",
            BinaryOp::Concat => "++",
            BinaryOp::Update => "//",
            BinaryOp::HasAttr => "?",
            BinaryOp::Impl => "->",
        }
    }

    /// The operator as Nix source text.
    pub fn to_string(self) -> (res: String)
        ensures
            res@ == binary_symbol(self),
    {
        String::from_str(self.symbol())
    }
}

impl Ident {
    /// The identifier as Nix source text: its name.
    pub fn to_string(&self) -> (res: String)
        ensures
            res@ == ident_text(self@),
    {
        self.name.clone()
    }
}

impl Literal {
    /// The literal as Nix source text.
    pub fn to_string(&self) -> (res: String)
        ensures
            res@ == literal_text(self@),
    {
        match self {
            Literal::Null(_) => String::from_str("null"),
            Literal::Boolean(b, _) => if *b {
                String::from_str("true")
            } else {
                String::from_str("false")
            },
            Literal::Float(t, _) => t.clone(),
            Literal::Integer(t, _) => t.clone(),
            Literal::Path(t, _) => t.clone(),
            Literal::PathTemplate(t, _) => t.clone(),
            Literal::Uri(t, _) => t.clone(),
        }
    }
}

impl Comment {
    /// The comment as Nix source text: each of its lines opened by `#`, and a final line
    /// break.
    pub fn to_string(&self) -> (res: String)
        ensures
            res@ == comment_text(self@),
    {
        let text = self.text.as_str();
        let n = text.unicode_len();
        let mut s = String::from_str("#");
        let mut i: usize = 0;
        while i < n
            invariant
                n == text@.len(),
                text@ == self.text@,
                i <= n,
                s@ == "#"@ + comment_lines(text@.take(i as int)),
            decreases n - i,
        {
            let c = text.get_char(i);
            proof {
                assert(text@.take(i + 1).drop_last() =~= text@.take(i as int));
            }
            if c == '\n' {
                s.append("\n#");
            } else {
                s.append(text.substring_char(i, i + 1));
                proof {
                    assert(text@.subrange(i as int, i + 1) =~= seq![c]);
                }
            }
            i = i + 1;
        }
        assert(text@.take(n as int) =~= text@);
        s.append("\n");
        s
    }
}

/// Joins the texts of the expressions with `sep` between each two of them.
fn exprs_joined(es: &Vec<Expr>, sep: &str) -> (res: String)
    ensures
        res@ == join_texts(exprs_texts(exprs_view(es@)), sep@),
    decreases es,
{
    let ghost parts = exprs_texts(exprs_view(es@));
    let mut s = String::new();
    let mut i: usize = 0;
    while i < es.len()
        invariant
            parts == exprs_texts(exprs_view(es@)),
            i <= es.len(),
            s@ == join_texts(parts.take(i as int), sep@),
        decreases es.len() - i,
    {
        let t = es[i].to_string();
        proof {
            lemma_join_step(parts, sep@, i as int);
        }
        if i > 0 {
            s.append(sep);
        }
        s.append(t.as_str());
        i = i + 1;
    }
    assert(parts.take(es.len() as int) =~= parts);
    s
}

impl Expr {
    /// The expression as Nix source text.
    pub fn to_string(&self) -> (res: String)
        ensures
            res@ == expr_text(self@),
        decreases self,
    {
        proof {
            lemma_seq_views(*self);
        }
        match self {
            Expr::Paren(e) => e.to_string(),
            Expr::Ident(e) => e.to_string(),
            Expr::Interpolation(e) => e.to_string(),
            Expr::Literal(e) => e.to_string(),
            Expr::List(e) => e.to_string(),
            Expr::String(e) => e.to_string(),
            Expr::AttrSet(e) => e.to_string(),
            Expr::Unary(e) => e.to_string(),
            Expr::Binary(e) => e.to_string(),
            Expr::Let(e) => e.to_string(),
            Expr::Rec(e) => e.to_string(),
            Expr::Proj(e) => e.to_string(),
            Expr::If(e) => e.to_string(),
            Expr::Or(e) => e.to_string(),
            Expr::Assert(e) => e.to_string(),
            Expr::With(e) => e.to_string(),
            Expr::LetIn(e) => e.to_string(),
            Expr::FnDecl(e) => e.to_string(),
            Expr::FnApp(e) => e.to_string(),
            Expr::Error(_) => String::from_str("<error>"),
            Expr::Trap(_) => String::from_str("trap"),
        }
    }
}

impl ExprParen {
    /// The parenthesized expression as Nix source text.
    pub fn to_string(&self) -> (res: String)
        ensures
            res@ == expr_text(self@),
        decreases self,
    {
        let mut s = String::from_str("(");
        let inner = self.expr.to_string();
        s.append(inner.as_str());
        s.append(")");
        s
    }
}

impl ExprList {
    /// The list as Nix source text.
    pub fn to_string(&self) -> (res: String)
        ensures
            res@ == expr_text(self@),
        decreases self,
    {
        let mut s = String::from_str("[");
        let inner = exprs_joined(&self.elems, " ");
        s.append(inner.as_str());
        s.append("]");
        s
    }
}

/// Joins the texts of the bindings with spaces between them.
fn binds_joined(bs: &Vec<Bind>) -> (res: String)
    ensures
        res@ == join_texts(binds_texts(binds_view(bs@)), " "@),
    decreases bs,
{
    let ghost parts = binds_texts(binds_view(bs@));
    let mut s = String::new();
    let mut i: usize = 0;
    while i < bs.len()
        invariant
            parts == binds_texts(binds_view(bs@)),
            i <= bs.len(),
            s@ == join_texts(parts.take(i as int), " "@),
        decreases bs.len() - i,
    {
        let t = bs[i].to_string();
        proof {
            lemma_join_step(parts, " "@, i as int);
        }
        if i > 0 {
            s.append(" ");
        }
        s.append(t.as_str());
        i = i + 1;
    }
    assert(parts.take(bs.len() as int) =~= parts);
    s
}

/// Joins the texts of the string fragments.
fn fragments_joined(fs: &Vec<StringFragment>) -> (res: String)
    ensures
        res@ == join_texts(fragments_texts(fragments_view(fs@)), Seq::empty()),
    decreases fs,
{
    let ghost parts = fragments_texts(fragments_view(fs@));
    let mut s = String::new();
    let mut i: usize = 0;
    while i < fs.len()
        invariant
            parts == fragments_texts(fragments_view(fs@)),
            i <= fs.len(),
            s@ == join_texts(parts.take(i as int), Seq::empty()),
        decreases fs.len() - i,
    {
        let t = fs[i].to_string();
        proof {
            lemma_join_step(parts, Seq::empty(), i as int);
            assert(s@ + Seq::<char>::empty() =~= s@);
        }
        s.append(t.as_str());
        i = i + 1;
    }
    assert(parts.take(fs.len() as int) =~= parts);
    s
}

/// Joins the texts of the path segments with dots between them.
fn segments_joined(ss: &Vec<AttrSegment>) -> (res: String)
    ensures
        res@ == join_texts(segments_texts(segments_view(ss@)), "."@),
    decreases ss,
{
    let ghost parts = segments_texts(segments_view(ss@));
    let mut s = String::new();
    let mut i: usize = 0;
    while i < ss.len()
        invariant
            parts == segments_texts(segments_view(ss@)),
            i <= ss.len(),
            s@ == join_texts(parts.take(i as int), "."@),
        decreases ss.len() - i,
    {
        let t = ss[i].to_string();
        proof {
            lemma_join_step(parts, "."@, i as int);
        }
        if i > 0 {
            s.append(".");
        }
        s.append(t.as_str());
        i = i + 1;
    }
    assert(parts.take(ss.len() as int) =~= parts);
    s
}

/// Joins the texts of the formal arguments with commas between them.
fn formals_joined(fs: &Vec<Formal>) -> (res: String)
    ensures
        res@ == join_texts(formals_texts(formals_view(fs@)), ", "@),
    decreases fs,
{
    let ghost parts = formals_texts(formals_view(fs@));
    let mut s = String::new();
    let mut i: usize = 0;
    while i < fs.len()
        invariant
            parts == formals_texts(formals_view(fs@)),
            i <= fs.len(),
            s@ == join_texts(parts.take(i as int), ", "@),
        decreases fs.len() - i,
    {
        let t = fs[i].to_string();
        proof {
            lemma_join_step(parts, ", "@, i as int);
        }
        if i > 0 {
            s.append(", ");
        }
        s.append(t.as_str());
        i = i + 1;
    }
    assert(parts.take(fs.len() as int) =~= parts);
    s
}

/// Joins the names with spaces between them.
fn names_joined(names: &Vec<Ident>) -> (res: String)
    ensures
        res@ == names_text(idents_view(names@)),
{
    let ghost parts = names_texts(idents_view(names@));
    let mut s = String::new();
    let mut i: usize = 0;
    while i < names.len()
        invariant
            parts == names_texts(idents_view(names@)),
            i <= names.len(),
            s@ == join_texts(parts.take(i as int), " "@),
        decreases names.len() - i,
    {
        let t = names[i].to_string();
        proof {
            lemma_join_step(parts, " "@, i as int);
        }
        if i > 0 {
            s.append(" ");
        }
        s.append(t.as_str());
        i = i + 1;
    }
    assert(parts.take(names.len() as int) =~= parts);
    s
}

/// `open`, then `inner`, then `close`.
fn enclosed(open: &str, inner: String, close: &str) -> (res: String)
    ensures
        res@ == open@ + inner@ + close@,
{
    let mut s = String::from_str(open);
    s.append(inner.as_str());
    s.append(close);
    s
}

impl ExprInterpolation {
    /// The interpolation as Nix source text.
    pub fn to_string(&self) -> (res: String)
        ensures
            res@ == expr_text(self@),
        decreases self,
    {
        enclosed("${", self.inner.to_string(), "}")
    }
}

impl ExprSet {
    /// The attribute set as Nix source text.
    pub fn to_string(&self) -> (res: String)
        ensures
            res@ == expr_text(self@),
        decreases self,
    {
        enclosed("{", binds_joined(&self.binds), "}")
    }
}

impl ExprString {
    /// The string as Nix source text, between double quotes.
    pub fn to_string(&self) -> (res: String)
        ensures
            res@ == expr_text(self@),
        decreases self,
    {
        enclosed("\"", fragments_joined(&self.0), "\"")
    }
}

impl StringFragment {
    /// The fragment as Nix source text.
    pub fn to_string(&self) -> (res: String)
        ensures
            res@ == fragment_text(self@),
        decreases self,
    {
        match self {
            StringFragment::Literal(t, _) => t.clone(),
            StringFragment::Interpolation(e) => e.to_string(),
        }
    }
}

impl ExprUnary {
    /// The unary expression as Nix source text.
    pub fn to_string(&self) -> (res: String)
        ensures
            res@ == expr_text(self@),
        decreases self,
    {
        let mut s = self.op.to_string();
        let inner = self.expr.to_string();
        s.append(inner.as_str());
        s
    }
}

impl ExprBinary {
    /// The binary expression as Nix source text.
    pub fn to_string(&self) -> (res: String)
        ensures
            res@ == expr_text(self@),
        decreases self,
    {
        let mut s = self.lhs.to_string();
        s.append(" ");
        s.append(self.op.symbol());
        s.append(" ");
        let rhs = self.rhs.to_string();
        s.append(rhs.as_str());
        s
    }
}

impl Bind {
    /// The binding as Nix source text.
    pub fn to_string(&self) -> (res: String)
        ensures
            res@ == bind_text(self@),
        decreases self,
    {
        match self {
            Bind::Simple(b) => b.to_string(),
            Bind::Inherit(b) => b.to_string(),
            Bind::InheritExpr(b) => b.to_string(),
        }
    }
}

impl BindSimple {
    /// The binding as Nix source text, led by its doc comment.
    pub fn to_string(&self) -> (res: String)
        ensures
            res@ == bind_text(self@),
        decreases self,
    {
        let mut s = match &self.comment {
            Some(c) => c.to_string(),
            None => String::new(),
        };
        let path = self.attr.to_string();
        s.append(path.as_str());
        s.append(" = ");
        let e = self.expr.to_string();
        s.append(e.as_str());
        s.append(";");
        s
    }
}

impl BindInherit {
    /// The binding as Nix source text.
    pub fn to_string(&self) -> (res: String)
        ensures
            res@ == bind_text(self@),
        decreases self,
    {
        enclosed("inherit ", names_joined(&self.names), ";")
    }
}

impl BindInheritExpr {
    /// The binding as Nix source text.
    pub fn to_string(&self) -> (res: String)
        ensures
            res@ == bind_text(self@),
        decreases self,
    {
        let mut s = enclosed("inherit (", self.expr.to_string(), ") ");
        let names = names_joined(&self.names);
        s.append(names.as_str());
        s.append(";");
        s
    }
}

impl ExprLet {
    /// The legacy `let` expression as Nix source text.
    pub fn to_string(&self) -> (res: String)
        ensures
            res@ == expr_text(self@),
        decreases self,
    {
        enclosed("let {", binds_joined(&self.binds), "}")
    }
}

impl ExprRec {
    /// The recursive attribute set as Nix source text.
    pub fn to_string(&self) -> (res: String)
        ensures
            res@ == expr_text(self@),
        decreases self,
    {
        enclosed("rec {", binds_joined(&self.binds), "}")
    }
}

impl AttrPath {
    /// The attribute path as Nix source text: its segments separated by dots.
    pub fn to_string(&self) -> (res: String)
        ensures
            res@ == path_text(self@),
        decreases self,
    {
        proof {
            lemma_attr_path_view(*self);
        }
        segments_joined(&self.0)
    }
}

impl AttrSegment {
    /// The segment as Nix source text.
    pub fn to_string(&self) -> (res: String)
        ensures
            res@ == segment_text(self@),
        decreases self,
    {
        proof {
            lemma_segment_view(*self);
        }
        match self {
            AttrSegment::Ident(i) => i.to_string(),
            AttrSegment::Interpolation(e) => e.to_string(),
            AttrSegment::String(e) => e.to_string(),
        }
    }
}

impl ExprProj {
    /// The projection as Nix source text, with its fallback where it has one.
    pub fn to_string(&self) -> (res: String)
        ensures
            res@ == expr_text(self@),
        decreases self,
    {
        let mut s = self.base.to_string();
        s.append(".");
        let path = self.attr.to_string();
        s.append(path.as_str());
        match &self.fallback {
            Some(f) => {
                s.append(" or ");
                let t = f.to_string();
                s.append(t.as_str());
            },
            None => {},
        }
        s
    }
}

impl ExprIf {
    /// The conditional as Nix source text.
    pub fn to_string(&self) -> (res: String)
        ensures
            res@ == expr_text(self@),
        decreases self,
    {
        let mut s = enclosed("if ", self.cond.to_string(), " then ");
        let body = self.body.to_string();
        s.append(body.as_str());
        s.append(" else ");
        let fallback = self.fallback.to_string();
        s.append(fallback.as_str());
        s
    }
}

impl ExprOr {
    /// The `or` expression as Nix source text.
    pub fn to_string(&self) -> (res: String)
        ensures
            res@ == expr_text(self@),
        decreases self,
    {
        let mut s = self.expr.to_string();
        s.append(" or ");
        let fallback = self.fallback.to_string();
        s.append(fallback.as_str());
        s
    }
}

impl ExprAssert {
    /// The assertion as Nix source text.
    pub fn to_string(&self) -> (res: String)
        ensures
            res@ == expr_text(self@),
        decreases self,
    {
        let mut s = enclosed("assert ", self.cond.to_string(), "; ");
        let e = self.expr.to_string();
        s.append(e.as_str());
        s
    }
}

impl ExprWith {
    /// The `with` expression as Nix source text.
    pub fn to_string(&self) -> (res: String)
        ensures
            res@ == expr_text(self@),
        decreases self,
    {
        let mut s = enclosed("with ", self.with.to_string(), "; ");
        let e = self.expr.to_string();
        s.append(e.as_str());
        s
    }
}

impl ExprLetIn {
    /// The `let ... in` expression as Nix source text.
    pub fn to_string(&self) -> (res: String)
        ensures
            res@ == expr_text(self@),
        decreases self,
    {
        let mut s = enclosed("let ", binds_joined(&self.binds), " in ");
        let body = self.body.to_string();
        s.append(body.as_str());
        s
    }
}

impl ExprFnDecl {
    /// The function declaration as Nix source text.
    pub fn to_string(&self) -> (res: String)
        ensures
            res@ == expr_text(self@),
        decreases self,
    {
        proof {
            lemma_seq_views(Expr::FnDecl(*self));
        }
        match self {
            ExprFnDecl::Simple(f) => f.to_string(),
            ExprFnDecl::Formals(f) => f.to_string(),
        }
    }
}

impl FnDeclSimple {
    /// The function declaration as Nix source text.
    pub fn to_string(&self) -> (res: String)
        ensures
            res@ == expr_text(self@),
        decreases self,
    {
        let mut s = self.name.to_string();
        s.append(": ");
        let body = self.body.to_string();
        s.append(body.as_str());
        s
    }
}

impl Formal {
    /// The formal argument as Nix source text.
    pub fn to_string(&self) -> (res: String)
        ensures
            res@ == formal_text(self@),
        decreases self,
    {
        let mut s = self.name.to_string();
        match &self.default {
            Some(d) => {
                s.append(" ? ");
                let t = d.to_string();
                s.append(t.as_str());
            },
            None => {},
        }
        s
    }
}

impl FnDeclFormals {
    /// The head of the function declaration as Nix source text: its formal arguments, the
    /// ellipsis where there is one, and the name bound to the whole argument where there is
    /// one. The body is not part of it.
    pub fn to_string(&self) -> (res: String)
        ensures
            res@ == expr_text(self@),
        decreases self,
    {
        let mut s = String::from_str("{");
        let args = formals_joined(&self.formals);
        s.append(args.as_str());
        if self.ellipsis.is_some() {
            if self.formals.len() == 0 {
                s.append("...");
            } else {
                s.append(", ...");
            }
        }
        s.append("}");
        match &self.extra {
            Some(n) => {
                s.append("@");
                let t = n.to_string();
                s.append(t.as_str());
            },
            None => {},
        }
        s.append(":");
        s
    }
}

impl ExprFnApp {
    /// The function application as Nix source text.
    pub fn to_string(&self) -> (res: String)
        ensures
            res@ == expr_text(self@),
        decreases self,
    {
        let mut s = self.function.to_string();
        s.append(" ");
        let arg = self.argument.to_string();
        s.append(arg.as_str());
        s
    }
}

/// The text of a source file: its doc comment, a line break, then its expression.
pub open spec fn source_file_text(f: crate::ast::SourceFileV) -> Seq<char> {
    match f.comment {
        Some(c) => comment_text(c) + "\n"@ + expr_text(f.expr),
        None => expr_text(f.expr),
    }
}

impl SourceFile {
    /// The source file as Nix source text.
    pub fn to_string(&self) -> (res: String)
        ensures
            res@ == source_file_text(self@),
    {
        let e = self.expr.to_string();
        match &self.comment {
            Some(c) => {
                let mut s = c.to_string();
                s.append("\n");
                s.append(e.as_str());
                s
            },
            None => e,
        }
    }
}

/// An interpolated fragment of a string is written exactly as the interpolation expression
/// that it holds is written: `${`, the text of the interpolated expression, and `}`.
pub proof fn law_interpolation_fragment_text(i: ExprInterpolation)
    ensures
        fragment_text(StringFragment::Interpolation(i)@) == expr_text(Expr::Interpolation(i)@),
        fragment_text(StringFragment::Interpolation(i)@) == "${"@ + expr_text((*i.inner)@) + "}"@,
{
}

} // verus!
