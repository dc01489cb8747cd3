use nix_parser::error::{Error, Errors, UnexpectedError};
use nix_parser::lexer::{Token, TokenKind};
use nix_parser::parser::combinators::{
    many_till_partial, map_partial, separated_list_partial, FormalArgument, Projection,
};
use nix_parser::parser::expr::FormalItem;
use nix_parser::parser::Partial;
use nix_parser::span::Span;

/// Builds a token stream from `make`, one token per unit of span, followed by the end of input.
fn stream(make: &[fn(Span) -> Token]) -> Vec<Token> {
    let mut toks = Vec::new();
    let mut pos: u32 = 0;
    for m in make {
        toks.push(m(Span::new(pos, pos + 1)));
        pos += 2;
    }
    toks.push(Token::Eof(Span::new(pos, pos)));
    toks
}

fn int_one(s: Span) -> Token {
    Token::Integer("1".to_string(), s)
}

fn name_x(s: Span) -> Token {
    Token::Identifier("x".to_string(), s)
}

fn name_y(s: Span) -> Token {
    Token::Identifier("y".to_string(), s)
}

fn expected_text_of(e: &Error) -> String {
    match e {
        Error::ExpectedFound(e) => e.expected_text().clone(),
        Error::Unexpected(e) => panic!("unexpected {:?}", e),
    }
}

fn one_error() -> Errors {
    let mut errs = Errors::new();
    errs.push(Error::Unexpected(UnexpectedError::new("?".to_string(), Span::new(0, 1))));
    errs
}

#[test]
fn many_till_stops_at_the_terminator() {
    let toks = stream(&[int_one, int_one, Token::RBracket]);
    let (q, partial) = many_till_partial(&toks, 0, TokenKind::RBracket, &Projection);
    assert_eq!(q, 2);
    assert_eq!(partial.value().unwrap().len(), 2);
    assert!(!partial.has_errors());
}

#[test]
fn many_till_reports_a_missing_terminator() {
    let toks = stream(&[int_one, int_one]);
    let (q, partial) = many_till_partial(&toks, 0, TokenKind::RBracket, &Projection);
    assert_eq!(q, 2);
    assert_eq!(partial.value().unwrap().len(), 2);
    let errors = partial.errors().unwrap();
    assert_eq!(errors.len(), 1);
    assert_eq!(expected_text_of(errors.get(0)), "right bracket");
}

#[test]
fn many_till_skips_a_token_it_cannot_read() {
    let toks = stream(&[int_one, Token::Comma, int_one, Token::RBracket]);
    let (q, partial) = many_till_partial(&toks, 0, TokenKind::RBracket, &Projection);
    assert_eq!(q, 3);
    assert_eq!(partial.value().unwrap().len(), 2);
    assert!(partial.has_errors());
}

#[test]
fn separated_list_reads_items_up_to_the_terminator() {
    let toks = stream(&[name_x, Token::Comma, name_y, Token::RBrace]);
    let (q, partial) =
        separated_list_partial(&toks, 0, TokenKind::Comma, TokenKind::RBrace, &FormalArgument);
    assert_eq!(q, 3);
    let items = partial.value().unwrap();
    assert_eq!(items.len(), 2);
    match &items[1] {
        FormalItem::Formal(f) => assert_eq!(f.name().name().as_str(), "y"),
        FormalItem::Ellipsis(_) => panic!("expected a formal argument"),
    }
    assert!(!partial.has_errors());
}

#[test]
fn separated_list_at_the_end_appends_an_error_and_keeps_the_items() {
    let toks = stream(&[name_x, Token::Comma, name_y]);
    let (q, partial) =
        separated_list_partial(&toks, 0, TokenKind::Comma, TokenKind::RBrace, &FormalArgument);
    assert_eq!(q, 3);
    assert_eq!(partial.value().unwrap().len(), 2);
    let errors = partial.errors().unwrap();
    assert_eq!(errors.len(), 1);
    assert_eq!(expected_text_of(errors.get(0)), "right brace");
}

#[test]
fn separated_list_of_nothing_is_empty() {
    let toks = stream(&[Token::RBrace]);
    let (q, partial) =
        separated_list_partial(&toks, 0, TokenKind::Comma, TokenKind::RBrace, &FormalArgument);
    assert_eq!(q, 0);
    assert_eq!(partial.value().unwrap().len(), 0);
    assert!(!partial.has_errors());
}

#[test]
fn map_partial_maps_the_value_and_keeps_the_rest() {
    let r: Result<(usize, Partial<u32>), Errors> = Ok((3, Partial::with_errors(Some(2), one_error())));
    let (q, p) = map_partial(r, |x: u32| x + 1).ok().unwrap();
    assert_eq!(q, 3);
    assert_eq!(p, Partial::with_errors(Some(3), one_error()));
    let failed: Result<(usize, Partial<u32>), Errors> = Err(one_error());
    assert_eq!(map_partial(failed, |x: u32| x + 1).err().unwrap(), one_error());
}

#[test]
fn partial_clone_is_equal() {
    let p = Partial::with_errors(Some(7u32), one_error());
    assert_eq!(p.clone(), p);
    assert!(Partial::new(Some(1u32)) != Partial::new(Some(2u32)));
    assert!(Partial::new(Some(1u32)) != Partial::with_errors(Some(1u32), one_error()));
}

#[test]
fn partial_map_keeps_identity_and_composition() {
    let p = Partial::with_errors(Some(5u32), one_error());
    assert_eq!(p.clone().map(|x| x), p);
    let f = |x: u32| x * 2;
    let g = |x: u32| x + 3;
    assert_eq!(p.clone().map(f).map(g), p.clone().map(|x| g(f(x))));
    assert_eq!(p.map(f).map(g).value(), Some(&13));
}

#[test]
fn partial_flat_map_is_a_monad() {
    let f = |x: u32| Partial::with_errors(Some(x + 1), one_error());
    let g = |x: u32| Partial::new(Some(x * 10));
    assert_eq!(Partial::new(Some(4u32)).flat_map(f), f(4));
    let p = Partial::with_errors(Some(4u32), one_error());
    assert_eq!(p.clone().flat_map(|x| Partial::new(Some(x))), p);
    let left = p.clone().flat_map(f).flat_map(g);
    let right = p.flat_map(|x| f(x).flat_map(g));
    assert_eq!(left, right);
    assert_eq!(left.value(), Some(&50));
    assert_eq!(left.errors().unwrap().len(), 2);
    let none: Partial<u32> = Partial::with_errors(None, one_error());
    assert_eq!(none.clone().flat_map(f), Partial::with_errors(None, one_error()));
}
