//! Generic combinators over token parsers: repetition up to a terminator, lists with
//! separators, and mapping the value of a parse.

use vstd::prelude::*;

use crate::error::{errors_view, lemma_errors_view_add, Error, ErrorView, Errors};
use crate::lexer::tokens::{well_ordered, Token, TokenKind};
use crate::parser::expr::{
    advances, at_end, consumed_span, expected_at, formal_item, kind_at, progresses, project,
    res_view, FormalItem, PResult,
};
use crate::parser::grammar::{self, push_present, Res};
use crate::parser::partial::{map_result, Partial, PartialV};
use crate::ast::Expr;
use crate::span::Span;

verus! {

/// A parser of one item at a position of a token stream, that consumes at least one token
/// when it succeeds.
pub trait TokenParser {
    /// The kind of item that the parser reads.
    type Output: View;

    /// What the parser gives at position `p` of `toks`.
    spec fn spec_parse(&self, toks: Seq<Token>, p: int) -> Res<PartialV<<Self::Output as View>::V>>;

    /// Reads one item at position `p`.
    fn parse(&self, toks: &[Token], p: usize) -> (res: PResult<Self::Output>)
        requires
            p <= toks@.len(),
            well_ordered(toks@),
        ensures
            res_view(res) == self.spec_parse(toks@, p as int),
            progresses(res, p as int, toks@.len() as int),
    ;
}

/// The parser `parser` as a function of the position in `toks`.
pub open spec fn parser_fn<P: TokenParser>(parser: P, toks: Seq<Token>) -> spec_fn(int) -> Res<
    PartialV<<P::Output as View>::V>,
> {
    |q: int| parser.spec_parse(toks, q)
}

/// The views of the values.
pub open spec fn values_view<T: View>(v: Seq<T>) -> Seq<T::V> {
    v.map_values(|x: T| x@)
}

/// The view of a partial vector: the views of its values, if any, and its errors.
pub open spec fn pvec_view<T: View>(p: Partial<Vec<T>>) -> PartialV<Seq<T::V>> {
    PartialV {
        value: match p.spec_value() {
            Some(v) => Some(values_view(v@)),
            None => None,
        },
        errors: errors_view(p.spec_errors()),
    }
}

/// Items read by `f` until a token of kind `term`. An item that fails is skipped one token
/// at a time, its errors recorded. When the input ends before the terminator, the items
/// read so far are given with their own errors and an error that expects the terminator.
pub open spec fn many_till<V>(
    toks: Seq<Token>,
    f: spec_fn(int) -> Res<PartialV<V>>,
    p: int,
    term: TokenKind,
    vals: Seq<V>,
    elem_errs: Seq<ErrorView>,
    skip_errs: Seq<ErrorView>,
) -> (int, PartialV<Seq<V>>)
    decreases toks.len() - p,
{
    if kind_at_spec(toks, p, term) {
        (p, PartialV { value: Some(vals), errors: elem_errs + skip_errs })
    } else {
        match f(p) {
            Ok((q, e)) => if p < q <= toks.len() {
                many_till(toks, f, q, term, push_present(vals, e), elem_errs + e.errors, skip_errs)
            } else {
                (p, PartialV { value: Some(vals), errors: elem_errs })
            },
            Err(errs) => if grammar::at_end(toks, p) || p < 0 {
                (p, PartialV { value: Some(vals), errors: elem_errs + grammar::expected_at(toks, p, term) })
            } else {
                many_till(toks, f, p + 1, term, vals, elem_errs, skip_errs + errs)
            },
        }
    }
}

/// The token at `pos` is of kind `k`.
pub open spec fn kind_at_spec(toks: Seq<Token>, pos: int, k: TokenKind) -> bool {
    grammar::kind_at(toks, pos, k)
}

/// Items read by `f` and separated by tokens of kind `sep`, up to a token of kind `term`.
/// When no first item can be read, the list is empty; when the first item is read without a
/// value, the list has no value and only that item's errors. An item that fails is skipped one
/// token at a time, its errors recorded; when the input ends before the terminator, the
/// items read so far are given with their own errors and an error that expects the
/// terminator.
pub open spec fn separated_list<V>(
    toks: Seq<Token>,
    f: spec_fn(int) -> Res<PartialV<V>>,
    p: int,
    sep: TokenKind,
    term: TokenKind,
) -> (int, PartialV<Seq<V>>) {
    match f(p) {
        Err(_) => if grammar::at_end(toks, p) {
            (p, PartialV { value: Some(Seq::empty()), errors: grammar::expected_at(toks, p, term) })
        } else {
            (p, grammar::pv_of(Seq::empty()))
        },
        Ok((q, e)) => if p <= q <= toks.len() {
            let rest = separated_rest(toks, f, q, sep, term, push_present(Seq::empty(), e), e.errors, Seq::empty());
            if e.value is None {
                (rest.0, PartialV { value: None, errors: e.errors })
            } else {
                rest
            }
        } else {
            (p, grammar::pv_of(Seq::empty()))
        },
    }
}

/// The items `(sep item)*` after those already read.
pub open spec fn separated_rest<V>(
    toks: Seq<Token>,
    f: spec_fn(int) -> Res<PartialV<V>>,
    p: int,
    sep: TokenKind,
    term: TokenKind,
    items: Seq<V>,
    elem_errs: Seq<ErrorView>,
    skip_errs: Seq<ErrorView>,
) -> (int, PartialV<Seq<V>>)
    decreases toks.len() - p,
{
    if grammar::kind_at(toks, p, term) {
        (p, PartialV { value: Some(items), errors: elem_errs + skip_errs })
    } else {
        let next = if grammar::kind_at(toks, p, sep) {
            f(p + 1)
        } else {
            Err(grammar::expected_at(toks, p, sep))
        };
        match next {
            Ok((q, it)) => if p < q <= toks.len() {
                separated_rest(toks, f, q, sep, term, push_present(items, it), elem_errs + it.errors, skip_errs)
            } else {
                (p, PartialV { value: Some(items), errors: elem_errs })
            },
            Err(e) => if grammar::at_end(toks, p) || p < 0 {
                (p, PartialV { value: Some(items), errors: elem_errs + grammar::expected_at(toks, p, term) })
            } else {
                separated_rest(toks, f, p + 1, sep, term, items, elem_errs, skip_errs + e)
            },
        }
    }
}

/// The parser `f` after a token of kind `sep`.
pub open spec fn preceded<V>(
    toks: Seq<Token>,
    sep: TokenKind,
    f: spec_fn(int) -> Res<PartialV<V>>,
) -> spec_fn(int) -> Res<PartialV<V>> {
    |q: int|
        if grammar::kind_at(toks, q, sep) {
            f(q + 1)
        } else {
            Err(grammar::expected_at(toks, q, sep))
        }
}

/// The items after the first one are those that `many_till` reads with `f` after `sep`.
proof fn lemma_separated_rest_is_many_till<V>(
    toks: Seq<Token>,
    f: spec_fn(int) -> Res<PartialV<V>>,
    p: int,
    sep: TokenKind,
    term: TokenKind,
    items: Seq<V>,
    elem_errs: Seq<ErrorView>,
    skip_errs: Seq<ErrorView>,
)
    ensures
        separated_rest(toks, f, p, sep, term, items, elem_errs, skip_errs) == many_till(
            toks,
            preceded(toks, sep, f),
            p,
            term,
            items,
            elem_errs,
            skip_errs,
        ),
    decreases toks.len() - p,
{
    let g = preceded(toks, sep, f);
    if !grammar::kind_at(toks, p, term) {
        match g(p) {
            Ok((q, it)) => if p < q <= toks.len() {
                lemma_separated_rest_is_many_till(
                    toks,
                    f,
                    q,
                    sep,
                    term,
                    push_present(items, it),
                    elem_errs + it.errors,
                    skip_errs,
                );
            },
            Err(e) => if !(grammar::at_end(toks, p) || p < 0) {
                lemma_separated_rest_is_many_till(toks, f, p + 1, sep, term, items, elem_errs, skip_errs + e);
            },
        }
    }
}

/// Items and errors that `many_till` starts from stand before those it reads, and its
/// position does not depend on them.
proof fn lemma_many_till_prefix<V>(
    toks: Seq<Token>,
    f: spec_fn(int) -> Res<PartialV<V>>,
    p: int,
    term: TokenKind,
    a: Seq<V>,
    errs: Seq<ErrorView>,
    vals: Seq<V>,
    elem_errs: Seq<ErrorView>,
    skip_errs: Seq<ErrorView>,
)
    ensures
        ({
            let r = many_till(toks, f, p, term, vals, elem_errs, skip_errs);
            let s = many_till(toks, f, p, term, a + vals, errs + elem_errs, skip_errs);
            r.1.value is Some && s.0 == r.0 && s.1.value == Some(a + r.1.value.unwrap())
                && s.1.errors == errs + r.1.errors
        }),
    decreases toks.len() - p,
{
    assert(errs + elem_errs + skip_errs =~= errs + (elem_errs + skip_errs));
    if !kind_at_spec(toks, p, term) {
        match f(p) {
            Ok((q, e)) => if p < q <= toks.len() {
                assert(push_present(a + vals, e) =~= a + push_present(vals, e));
                assert(errs + elem_errs + e.errors =~= errs + (elem_errs + e.errors));
                lemma_many_till_prefix(
                    toks,
                    f,
                    q,
                    term,
                    a,
                    errs,
                    push_present(vals, e),
                    elem_errs + e.errors,
                    skip_errs,
                );
            },
            Err(x) => if grammar::at_end(toks, p) || p < 0 {
                assert(errs + elem_errs + grammar::expected_at(toks, p, term) =~= errs + (elem_errs
                    + grammar::expected_at(toks, p, term)));
            } else {
                lemma_many_till_prefix(toks, f, p + 1, term, a, errs, vals, elem_errs, skip_errs + x);
            },
        }
    }
}

/// A separated list is its first item bound with the items that follow, each after a
/// separator, up to the terminator: without a value for the first item the list has none
/// and only that item's errors; with one, the list is that value followed by the later
/// items, with the first item's errors before theirs. The list ends where the later items
/// end.
pub proof fn law_separated_list_is_first_then_rest<V>(
    toks: Seq<Token>,
    f: spec_fn(int) -> Res<PartialV<V>>,
    p: int,
    sep: TokenKind,
    term: TokenKind,
    q: int,
    first: PartialV<V>,
)
    requires
        f(p) == Ok::<(int, PartialV<V>), Seq<ErrorView>>((q, first)),
        p <= q <= toks.len(),
    ensures
        ({
            let rest = many_till(toks, preceded(toks, sep, f), q, term, Seq::empty(), Seq::empty(), Seq::empty());
            let list = separated_list(toks, f, p, sep, term);
            rest.1.value is Some && list.0 == rest.0 && match first.value {
                None => list.1 == PartialV::<Seq<V>> { value: None, errors: first.errors },
                Some(x) => list.1 == PartialV {
                    value: Some(seq![x] + rest.1.value.unwrap()),
                    errors: first.errors + rest.1.errors,
                },
            }
        }),
{
    let g = preceded(toks, sep, f);
    let front = push_present(Seq::<V>::empty(), first);
    lemma_separated_rest_is_many_till(toks, f, q, sep, term, front, first.errors, Seq::empty());
    lemma_many_till_prefix(toks, g, q, term, front, first.errors, Seq::empty(), Seq::empty(), Seq::empty());
    let rest = many_till(toks, g, q, term, Seq::empty(), Seq::empty(), Seq::empty());
    assert(front + Seq::<V>::empty() =~= front);
    assert(first.errors + Seq::<ErrorView>::empty() =~= first.errors);
    if let Some(x) = first.value {
        assert(front + rest.1.value.unwrap() =~= seq![x] + rest.1.value.unwrap());
    }
}

/// Appends a present value.
fn push_value<T: View>(vals: &mut Vec<T>, v: Option<T>)
    ensures
        values_view(final(vals)@) == push_present(
            values_view(old(vals)@),
            PartialV {
                value: match v {
                    Some(x) => Some(x@),
                    None => None,
                },
                errors: Seq::empty(),
            },
        ),
{
    match v {
        Some(x) => {
            vals.push(x);
            assert(values_view(vals@) =~= values_view(old(vals)@).push(x@));
        },
        None => {},
    }
}

/// `b` after `a`.
fn joined(a: Errors, b: Errors) -> (res: Errors)
    ensures
        errors_view(res@) == errors_view(a@) + errors_view(b@),
{
    let ghost a0 = a@;
    let mut a = a;
    a.extend(b);
    proof {
        lemma_errors_view_add(a0, b@);
    }
    a
}

/// Reads items with `parser` from `p` until a token of kind `term`, as `many_till` states.
pub fn many_till_partial<P: TokenParser>(
    toks: &[Token],
    p: usize,
    term: TokenKind,
    parser: &P,
) -> (res: (usize, Partial<Vec<P::Output>>))
    requires
        p <= toks@.len(),
        well_ordered(toks@),
    ensures
        (res.0 as int, pvec_view(res.1)) == many_till(
            toks@,
            parser_fn(*parser, toks@),
            p as int,
            term,
            Seq::empty(),
            Seq::empty(),
            Seq::empty(),
        ),
        p <= res.0 <= toks@.len(),
{
    let ghost f = parser_fn(*parser, toks@);
    let mut q = p;
    let mut vals: Vec<P::Output> = Vec::new();
    let mut elem = Errors::new();
    let mut skip = Errors::new();
    proof {
        assert(values_view(vals@) =~= Seq::<<P::Output as View>::V>::empty());
        assert(errors_view(Seq::<Error>::empty()) =~= Seq::<ErrorView>::empty());
    }
    loop
        invariant
            p <= q <= toks@.len(),
            well_ordered(toks@),
            f == parser_fn(*parser, toks@),
            many_till(toks@, f, p as int, term, Seq::empty(), Seq::empty(), Seq::empty())
                == many_till(toks@, f, q as int, term, values_view(vals@), errors_view(elem@), errors_view(skip@)),
        decreases toks@.len() - q,
    {
        if kind_at(toks, q, term) {
            let errs = joined(elem, skip);
            return (q, Partial::with_errors(Some(vals), errs));
        }
        match parser.parse(toks, q) {
            Ok((q2, e)) => {
                let ghost ev = e@;
                let (v, errs) = e.into_parts();
                push_value(&mut vals, v);
                elem = joined(elem, errs);
                proof {
                    assert(f(q as int) == Ok::<(int, PartialV<<P::Output as View>::V>), Seq<ErrorView>>((q2 as int, ev)));
                }
                q = q2;
            },
            Err(errs) => {
                if at_end(toks, q) {
                    let missing = expected_at(toks, q, term);
                    let all = joined(elem, missing);
                    return (q, Partial::with_errors(Some(vals), all));
                }
                skip = joined(skip, errs);
                q = q + 1;
            },
        }
    }
}

/// Reads items with `parser` from `p`, separated by tokens of kind `sep`, up to a token of
/// kind `term`, as `separated_list` states.
pub fn separated_list_partial<P: TokenParser>(
    toks: &[Token],
    p: usize,
    sep: TokenKind,
    term: TokenKind,
    parser: &P,
) -> (res: (usize, Partial<Vec<P::Output>>))
    requires
        p <= toks@.len(),
        well_ordered(toks@),
    ensures
        (res.0 as int, pvec_view(res.1)) == separated_list(
            toks@,
            parser_fn(*parser, toks@),
            p as int,
            sep,
            term,
        ),
        p <= res.0 <= toks@.len(),
{
    let mut vals: Vec<P::Output> = Vec::new();
    proof {
        assert(values_view(vals@) =~= Seq::<<P::Output as View>::V>::empty());
        assert(errors_view(Seq::<Error>::empty()) =~= Seq::<ErrorView>::empty());
    }
    match parser.parse(toks, p) {
        Err(_) => {
            if at_end(toks, p) {
                return (p, Partial::with_errors(Some(vals), expected_at(toks, p, term)));
            }
            (p, Partial::with_errors(Some(vals), Errors::new()))
        },
        Ok((q, e)) => {
            let (v, errs) = e.into_parts();
            match v {
                None => {
                    let kept = errs.clone();
                    let (q2, _) = separated_rest_partial(
                        toks,
                        q,
                        sep,
                        term,
                        parser,
                        vals,
                        errs,
                        Errors::new(),
                    );
                    (q2, Partial::with_errors(None, kept))
                },
                Some(x) => {
                    push_value(&mut vals, Some(x));
                    separated_rest_partial(toks, q, sep, term, parser, vals, errs, Errors::new())
                },
            }
        },
    }
}

/// Reads the items `(sep item)*` after `vals`, as `separated_rest` states.
fn separated_rest_partial<P: TokenParser>(
    toks: &[Token],
    p: usize,
    sep: TokenKind,
    term: TokenKind,
    parser: &P,
    items: Vec<P::Output>,
    elem_errs: Errors,
    skip_errs: Errors,
) -> (res: (usize, Partial<Vec<P::Output>>))
    requires
        p <= toks@.len(),
        well_ordered(toks@),
    ensures
        (res.0 as int, pvec_view(res.1)) == separated_rest(
            toks@,
            parser_fn(*parser, toks@),
            p as int,
            sep,
            term,
            values_view(items@),
            errors_view(elem_errs@),
            errors_view(skip_errs@),
        ),
        p <= res.0 <= toks@.len(),
{
    let ghost f = parser_fn(*parser, toks@);
    let mut q = p;
    let mut vals = items;
    let mut elem = elem_errs;
    let mut skip = skip_errs;
    loop
        invariant
            p <= q <= toks@.len(),
            well_ordered(toks@),
            f == parser_fn(*parser, toks@),
            separated_rest(
                toks@,
                f,
                p as int,
                sep,
                term,
                values_view(items@),
                errors_view(elem_errs@),
                errors_view(skip_errs@),
            ) == separated_rest(
                toks@,
                f,
                q as int,
                sep,
                term,
                values_view(vals@),
                errors_view(elem@),
                errors_view(skip@),
            ),
        decreases toks@.len() - q,
    {
        if kind_at(toks, q, term) {
            let errs = joined(elem, skip);
            return (q, Partial::with_errors(Some(vals), errs));
        }
        let next = if kind_at(toks, q, sep) {
            parser.parse(toks, q + 1)
        } else {
            Err(expected_at(toks, q, sep))
        };
        match next {
            Ok((q2, e)) => {
                let (v, errs) = e.into_parts();
                push_value(&mut vals, v);
                elem = joined(elem, errs);
                q = q2;
            },
            Err(errs) => {
                if at_end(toks, q) {
                    let missing = expected_at(toks, q, term);
                    let all = joined(elem, missing);
                    return (q, Partial::with_errors(Some(vals), all));
                }
                skip = joined(skip, errs);
                q = q + 1;
            },
        }
    }
}

/// Maps the value of a parse, keeping its position and errors.
pub fn map_partial<T, U, F: FnOnce(T) -> U>(r: PResult<T>, f: F) -> (res: PResult<U>)
    requires
        r matches Ok((_, p)) ==> (p.spec_value() matches Some(v) ==> call_requires(f, (v,))),
    ensures
        r matches Err(e) ==> res matches Err(e2) && e2@ == e@,
        r matches Ok((q, p)) ==> res matches Ok((q2, p2)) && q2 == q && map_result(p, f, p2),
{
    match r {
        Ok((q, p)) => Ok((q, p.map(f))),
        Err(e) => Err(e),
    }
}

/// Maps the value of a parse that started at `pos` together with the span of the tokens it
/// consumed, keeping its position and errors.
pub fn map_partial_spanned<T, U, F: FnOnce((Span, T)) -> U>(
    toks: &[Token],
    pos: usize,
    r: PResult<T>,
    f: F,
) -> (res: PResult<U>)
    requires
        well_ordered(toks@),
        pos <= toks@.len(),
        advances(r, pos as int, toks@.len() as int),
        r matches Ok((q, p)) ==> (p.spec_value() matches Some(v) ==> call_requires(
            f,
            ((grammar::consumed_span(toks@, pos as int, q as int), v),),
        )),
    ensures
        r matches Err(e) ==> res matches Err(e2) && e2@ == e@,
        r matches Ok((q, p)) ==> res matches Ok((q2, p2)) && q2 == q && p2.spec_errors()
            == p.spec_errors() && match p.spec_value() {
            None => p2.spec_value() is None,
            Some(v) => p2.spec_value() matches Some(u) && call_ensures(
                f,
                ((grammar::consumed_span(toks@, pos as int, q as int), v),),
                u,
            ),
        },
{
    match r {
        Ok((q, p)) => {
            let span = consumed_span(toks, pos, q);
            let (v, errs) = p.into_parts();
            let u = match v {
                Some(x) => Some(f((span, x))),
                None => None,
            };
            Ok((q, Partial::with_errors(u, errs)))
        },
        Err(e) => Err(e),
    }
}

/// The parser of an operand with an optional projection, the elements of a list.
pub struct Projection;

impl TokenParser for Projection {
    type Output = Expr;

    open spec fn spec_parse(&self, toks: Seq<Token>, p: int) -> Res<PartialV<crate::ast::ExprV>> {
        grammar::project(toks, p)
    }

    fn parse(&self, toks: &[Token], p: usize) -> (res: PResult<Expr>) {
        project(toks, p)
    }
}

/// The parser of one formal argument of a function, or of an ellipsis.
pub struct FormalArgument;

impl TokenParser for FormalArgument {
    type Output = FormalItem;

    open spec fn spec_parse(&self, toks: Seq<Token>, p: int) -> Res<PartialV<grammar::FormalItemV>> {
        grammar::formal_item(toks, p)
    }

    fn parse(&self, toks: &[Token], p: usize) -> (res: PResult<FormalItem>) {
        formal_item(toks, p)
    }
}

} // verus!
