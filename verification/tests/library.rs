use nix_parser::ast::tokens::{Comment, Ident, Literal};
use nix_parser::ast::{BinaryOp, Expr, ExprBinary, ExprList, UnaryOp};
use nix_parser::error::{Error, Errors, ExpectedFoundError, UnexpectedError};
use nix_parser::lexer::{Token, TokenKind, Tokens};
use nix_parser::parser::Partial;
use nix_parser::span::Span;

fn unexpected(found: &str, a: u32, b: u32) -> Error {
    Error::Unexpected(UnexpectedError::new(found.to_string(), Span::new(a, b)))
}

fn errors_of(list: Vec<Error>) -> Errors {
    Errors::from_vec(list)
}

#[test]
fn verify_gives_a_complete_value() {
    let partial = Partial::new(Some(123));
    assert_eq!(Ok(123), partial.verify());
    let partial: Partial<u32> = Partial::new(None);
    assert!(partial.verify().is_err());
}

#[test]
fn verify_refuses_a_value_with_errors() {
    let partial = Partial::with_errors(Some(1u32), errors_of(vec![unexpected("x", 0, 1)]));
    let errors = partial.verify().unwrap_err();
    assert_eq!(errors.len(), 1);
}

#[test]
fn map_keeps_the_errors() {
    let partial_string = Partial::from(String::from("Hello, world!"));
    let partial_len = partial_string.map(|s| s.len());
    assert_eq!(partial_len.verify().unwrap(), 13);

    let with_errors = Partial::with_errors(Some(2u32), errors_of(vec![unexpected("x", 0, 1)]));
    let mapped = with_errors.map(|v| v * 10);
    assert_eq!(mapped.value(), Some(&20));
    assert_eq!(mapped.errors().unwrap().len(), 1);
}

#[test]
fn flat_map_appends_the_new_errors() {
    let first = Partial::with_errors(Some(1u32), errors_of(vec![unexpected("a", 0, 1)]));
    let joined = first.flat_map(|v| {
        Partial::with_errors(Some(v + 1), errors_of(vec![unexpected("b", 1, 2)]))
    });
    assert_eq!(joined.value(), Some(&2));
    let errors = joined.errors().unwrap();
    assert_eq!(errors.len(), 2);
    assert_eq!(errors.get(0).span(), Span::new(0, 1));
    assert_eq!(errors.get(1).span(), Span::new(1, 2));

    let missing: Partial<u32> = Partial::with_errors(None, errors_of(vec![unexpected("a", 0, 1)]));
    let skipped = missing.flat_map(|v| Partial::new(Some(v + 1)));
    assert!(skipped.value().is_none());
    assert_eq!(skipped.errors().unwrap().len(), 1);
}

#[test]
fn map_err_only_touches_existing_errors() {
    let clean = Partial::new(Some(1u32));
    let still_clean = clean.map_err(|_| errors_of(vec![unexpected("x", 0, 1)]));
    assert!(!still_clean.has_errors());

    let dirty = Partial::with_errors(Some(1u32), errors_of(vec![unexpected("x", 0, 1)]));
    let cleared = dirty.map_err(|_| Errors::new());
    assert!(!cleared.has_errors());
}

#[test]
fn extend_errors_appends() {
    let mut partial = Partial::new(Some(1u32));
    assert!(partial.errors().is_none());
    partial.extend_errors(errors_of(vec![unexpected("x", 0, 1), unexpected("y", 1, 2)]));
    assert!(partial.has_errors());
    assert_eq!(partial.errors().unwrap().len(), 2);
    assert_eq!(partial.value(), Some(&1));
}

#[test]
fn from_option_keeps_the_value() {
    let some: Partial<u32> = Partial::from(Some(5));
    assert_eq!(some.verify(), Ok(5));
    let none: Partial<u32> = Partial::from(None);
    assert!(none.value().is_none());
}

#[test]
fn collecting_partials_keeps_values_and_errors_in_order() {
    let parts = vec![
        Partial::new(Some(1u32)),
        Partial::with_errors(None, errors_of(vec![unexpected("a", 0, 1)])),
        Partial::with_errors(Some(3u32), errors_of(vec![unexpected("b", 2, 3)])),
    ];
    let all = Partial::from_partials(parts);
    assert_eq!(all.value(), Some(&vec![1, 3]));
    let errors = all.errors().unwrap();
    assert_eq!(errors.len(), 2);
    assert_eq!(errors.get(0).span(), Span::new(0, 1));
    assert_eq!(errors.get(1).span(), Span::new(2, 3));
}

#[test]
fn extending_a_partial_vector() {
    let mut acc = Partial::new(Some(vec![0u32]));
    acc.extend_partials(vec![
        Partial::new(Some(1u32)),
        Partial::with_errors(None, errors_of(vec![unexpected("a", 0, 1)])),
        Partial::new(Some(2u32)),
    ]);
    assert_eq!(acc.value(), Some(&vec![0, 1, 2]));
    assert_eq!(acc.errors().unwrap().len(), 1);

    let mut empty: Partial<Vec<u32>> = Partial::new(None);
    empty.extend_partials(vec![Partial::with_errors(Some(7), errors_of(vec![unexpected("b", 1, 2)]))]);
    assert!(empty.value().is_none());
    assert_eq!(empty.errors().unwrap().len(), 1);
}

#[test]
fn span_merge_covers_both() {
    let a = Span::new(1, 2);
    let b = Span::new(5, 9);
    assert_eq!(a.merge(b), Span::new(1, 9));
    assert_eq!(b.merge(a), Span::new(1, 9));
    assert_eq!(a.merge(a), a);
    assert_eq!(Span::new(0, 10).merge(Span::new(3, 4)), Span::new(0, 10));
    assert_eq!(a.start(), 1);
    assert_eq!(a.end(), 2);
    assert_eq!(Span::default(), Span::new(0, 0));
    assert_eq!(Span::initial(), Span::new(0, 0));
}

#[test]
fn token_descriptions() {
    let ident = Token::Identifier("foo".to_string(), Span::new(0, 3));
    assert_eq!(ident.description(), "identifier `foo`");
    assert_eq!(Token::Eof(Span::new(0, 0)).description(), "<eof>");
    assert_eq!(Token::GreaterThanEq(Span::new(0, 2)).description(), "operator `>`");
    assert_eq!(Token::Semi(Span::new(0, 1)).description(), "semicolon");
    let unknown = Token::Unknown("a\nb".to_string(), Span::new(0, 3), unexpected("a", 0, 1));
    assert_eq!(unknown.description(), "`a\\nb`");
    assert_eq!(TokenKind::QuoteSingle.text(), "multiline string open (`''`)");
}

#[test]
fn token_kinds_and_classes() {
    let with = Token::With(Span::new(0, 4));
    assert!(with.is_keyword());
    assert!(!with.is_comment());
    assert_eq!(with.kind(), TokenKind::With);
    assert_eq!(with.span(), Span::new(0, 4));
    let comment = Token::Comment("x".to_string(), nix_parser::lexer::CommentKind::Line, Span::new(0, 2));
    assert!(comment.is_comment());
    assert!(!comment.is_keyword());
    assert!(!Token::Add(Span::new(0, 1)).is_keyword());
}

#[test]
fn token_windows() {
    let toks = vec![
        Token::Identifier("a".to_string(), Span::new(0, 1)),
        Token::Add(Span::new(2, 3)),
        Token::Identifier("b".to_string(), Span::new(4, 5)),
    ];
    let all = Tokens::new(&toks);
    assert_eq!(all.input_len(), 3);
    assert_eq!(all.current().description(), "identifier `a`");
    assert_eq!(all.take(2).input_len(), 2);
    let (rest, taken) = all.take_split(1);
    assert_eq!(taken.input_len(), 1);
    assert_eq!(rest.input_len(), 2);
    assert_eq!(rest.current().kind(), TokenKind::Add);
    assert_eq!(all.slice_index(3), Some(3));
    assert_eq!(all.slice_index(4), None);
    let middle = all.slice(1, 3);
    assert_eq!(middle.input_len(), 2);
    assert_eq!(middle.to_span(), Span::new(2, 5));
    assert_eq!(all.slice_to(1).input_len(), 1);
    assert_eq!(all.slice_from(2).input_len(), 1);
    assert_eq!(all.slice_full().input_len(), 3);
    assert_eq!(all.to_span(), Span::new(0, 5));
    assert_eq!(all.to_string(), "[Identifier(\"a\"), Add, Identifier(\"b\")]");
    assert_eq!(all.debug_text(), "Tokens([Identifier(\"a\"), Add, Identifier(\"b\")])");
    assert_eq!(rest.to_string(), "[Add, Identifier(\"b\")]");
}

#[test]
fn error_stacks() {
    let mut errors = Errors::new();
    assert!(errors.is_empty());
    errors.push(unexpected("x", 0, 1));
    let mut more = Errors::new();
    more.push(Error::ExpectedFound(ExpectedFoundError::new(
        "semicolon".to_string(),
        "<eof>".to_string(),
        Span::new(4, 4),
    )));
    errors.extend(more);
    assert_eq!(errors.len(), 2);
    assert_eq!(errors.get(1).span(), Span::new(4, 4));
    let list = errors.into_vec();
    assert_eq!(list.len(), 2);
}

#[test]
fn operator_symbols() {
    let all = [
        (BinaryOp::Add, "+"),
        (BinaryOp::Sub, "-"),
        (BinaryOp::Mul, "*"),
        (BinaryOp::Div, "/"),
        (BinaryOp::Eq, "=="),
        (BinaryOp::NotEq, "!="),
        (BinaryOp::LessThan, "<"),
        (BinaryOp::LessThanEq, "<="),
        (BinaryOp::GreaterThan, ">"),
        (BinaryOp::GreaterThanEq, ">="),
        (BinaryOp::And, "&&"),
        (BinaryOp::Or, "||"),
        (BinaryOp::Concat, "++"),
        (BinaryOp::Update, "//"),
        (BinaryOp::HasAttr, "?"),
        (BinaryOp::Impl, "->"),
    ];
    for (op, text) in all.iter() {
        assert_eq!(op.to_string(), *text);
    }
    assert_eq!(UnaryOp::Neg.to_string(), "-");
    assert_eq!(UnaryOp::Not.to_string(), "!");
}

#[test]
fn rendering_leaves() {
    let comment = Comment::new(" hello world \nthis is a doc".to_string(), Span::new(0, 10));
    assert_eq!(comment.to_string(), "# hello world \n#this is a doc\n");
    let ident = Ident::new("foo".to_string(), Span::new(0, 3));
    assert_eq!(ident.to_string(), "foo");
    assert_eq!(Literal::from_bool(false).to_string(), "false");
    assert_eq!(Literal::Null(Span::new(0, 4)).to_string(), "null");
    assert_eq!(Literal::Uri("http://x".to_string(), Span::new(0, 8)).to_string(), "http://x");
}

#[test]
fn rendering_built_nodes() {
    let one = Expr::Literal(Literal::Integer("1".to_string(), Span::new(0, 1)));
    let two = Expr::Literal(Literal::Integer("2".to_string(), Span::new(4, 5)));
    let sum = Expr::Binary(ExprBinary::new(BinaryOp::Add, Box::new(one), Box::new(two), Span::new(0, 5)));
    assert_eq!(sum.to_string(), "1 + 2");
    let list = Expr::List(ExprList::new(vec![sum, Expr::Error(Span::new(6, 7))], Span::new(0, 8)));
    assert_eq!(list.to_string(), "[1 + 2 <error>]");
    assert_eq!(Expr::Trap(Span::new(0, 0)).to_string(), "trap");
}

#[test]
fn token_debug_texts_leave_out_spans() {
    let s = Span::new(0, 1);
    assert_eq!(Token::Eof(s).debug_text(), "Eof");
    assert_eq!(Token::Semi(s).debug_text(), "Semi");
    assert_eq!(Token::Identifier("foo".to_string(), s).debug_text(), "Identifier(\"foo\")");
    assert_eq!(Token::Boolean(true, s).debug_text(), "Boolean(true)");
    assert_eq!(
        Token::Comment("a\"b".to_string(), nix_parser::lexer::CommentKind::Line, s).debug_text(),
        "Comment(\"a\\\"b\")"
    );
    let inner = vec![Token::Identifier("x".to_string(), s), Token::Add(s)];
    assert_eq!(Token::Interpolation(inner, s).debug_text(), "Interpolation([Identifier(\"x\"), Add])");
    let frags = vec![
        nix_parser::lexer::StringFragment::Literal("hi".to_string(), s),
        nix_parser::lexer::StringFragment::Interpolation(vec![Token::Identifier("x".to_string(), s)], s),
    ];
    assert_eq!(
        Token::String(frags, s).debug_text(),
        "String([Literal(\"hi\"), Interpolation([Identifier(\"x\")])])"
    );
    let unknown = Token::Unknown("?".to_string(), s, unexpected("x", 0, 1));
    assert_eq!(
        unknown.debug_text(),
        "Unknown(\"?\", Unexpected(UnexpectedError { found: \"x\", span: Span { start: 0, end: 1 } }))"
    );
}

#[test]
fn error_and_span_debug_texts_agree_with_debug() {
    let e = unexpected("a\tb", 3, 12);
    assert_eq!(e.debug_text(), format!("{:?}", e));
    let x = Error::ExpectedFound(ExpectedFoundError::new("comma".to_string(), "<eof>".to_string(), Span::new(7, 7)));
    assert_eq!(x.debug_text(), format!("{:?}", x));
    let s = Span::new(10, 4000000000);
    assert_eq!(s.debug_text(), format!("{:?}", s));
}

#[test]
fn decimal_numbers() {
    assert_eq!(nix_parser::text::decimal(0), "0");
    assert_eq!(nix_parser::text::decimal(7), "7");
    assert_eq!(nix_parser::text::decimal(1024), "1024");
    assert_eq!(nix_parser::text::decimal(4294967295), "4294967295");
}

#[test]
fn well_ordered_streams() {
    let s = |a: u32| Span::new(a, a + 1);
    let good = vec![Token::Identifier("a".to_string(), s(0)), Token::Add(s(2)), Token::Eof(s(3))];
    assert!(nix_parser::lexer::is_well_ordered(&good));
    let bad = || vec![Token::Identifier("a".to_string(), s(5)), Token::Add(s(2))];
    assert!(!nix_parser::lexer::is_well_ordered(&bad()));
    let nested_bad = vec![Token::Interpolation(bad(), s(0)), Token::Eof(s(9))];
    assert!(!nix_parser::lexer::is_well_ordered(&nested_bad));
    let frags = vec![nix_parser::lexer::StringFragment::Interpolation(bad(), s(0))];
    assert!(!nix_parser::lexer::is_well_ordered(&[Token::String(frags, s(0))]));
    assert!(nix_parser::lexer::is_well_ordered(&[]));
}

#[test]
fn tokens_compare_kind_span_and_contents() {
    let s = Span::new(0, 1);
    let t = Token::Interpolation(vec![Token::Identifier("x".to_string(), s), Token::Add(s)], s);
    let c = t.clone();
    assert!(c == t);
    assert_eq!(c.debug_text(), t.debug_text());
    assert!(Token::Add(s) == Token::Add(s));
    assert!(Token::Add(s) != Token::Add(Span::new(0, 2)));
    assert!(Token::Add(s) != Token::Sub(s));
    assert!(Token::Identifier("x".to_string(), s) != Token::Identifier("y".to_string(), s));
    let u = Token::Interpolation(vec![Token::Identifier("x".to_string(), s)], s);
    assert!(u != t);
    let e1 = unexpected("a", 0, 1);
    assert!(e1.same(&unexpected("a", 0, 1)));
    assert!(!e1.same(&unexpected("b", 0, 1)));
    let f = nix_parser::lexer::StringFragment::Literal("hi".to_string(), s);
    assert!(f.clone() == f);
}
