use nix_parser::ast::{BinaryOp, Expr};
use nix_parser::lexer::Token;
use nix_parser::parser::parse_expr;
use nix_parser::span::Span;

fn sp(a: u32, b: u32) -> Span {
    Span::new(a, b)
}

fn ident(name: &str, a: u32) -> Token {
    Token::Identifier(name.to_string(), sp(a, a + name.len() as u32))
}

#[test]
fn parses_sum_left_assoc() {
    // a - b - c
    let toks = vec![
        ident("a", 0),
        Token::Sub(sp(2, 3)),
        ident("b", 4),
        Token::Sub(sp(6, 7)),
        ident("c", 8),
        Token::Eof(sp(9, 9)),
    ];
    let e = parse_expr(&toks).unwrap();
    match e {
        Expr::Binary(b) => {
            assert_eq!(b.op(), BinaryOp::Sub);
            match b.left() {
                Expr::Binary(inner) => assert_eq!(inner.op(), BinaryOp::Sub),
                other => panic!("unexpected {:?}", other),
            }
            match b.right() {
                Expr::Ident(i) => assert_eq!(i.name(), "c"),
                other => panic!("unexpected {:?}", other),
            }
            assert_eq!(b.span(), sp(0, 9));
        }
        other => panic!("unexpected {:?}", other),
    }
}
