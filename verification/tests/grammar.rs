use nix_parser::ast::tokens::{Comment, Ident, Literal};
use nix_parser::ast::{AttrPath, AttrSegment, BinaryOp, Bind, BindSimple, Expr, ExprProj, UnaryOp};
use nix_parser::error::{Error, Errors};
use nix_parser::lexer::{CommentKind, StringFragment, Token, TokenKind};
use nix_parser::parser::expr::expect_terminated;
use nix_parser::parser::{parse_expr, parse_expr_partial, parse_source_file, parse_source_file_partial, Partial};
use nix_parser::span::Span;

/// Splits `src` at spaces and turns each word into one token, with the span it covers; an
/// end-of-input token follows.
fn lex(src: &str) -> Vec<Token> {
    let mut toks = Vec::new();
    let mut pos: u32 = 0;
    for word in src.split(' ') {
        let start = pos;
        let end = pos + word.len() as u32;
        pos = end + 1;
        if word.is_empty() {
            continue;
        }
        toks.push(word_token(word, Span::new(start, end)));
    }
    let end = if pos > 0 { pos - 1 } else { 0 };
    toks.push(Token::Eof(Span::new(end, end)));
    toks
}

fn word_token(word: &str, s: Span) -> Token {
    match word {
        "+" => Token::Add(s),
        "-" => Token::Sub(s),
        "*" => Token::Mul(s),
        "/" => Token::Div(s),
        "==" => Token::IsEq(s),
        "!=" => Token::NotEq(s),
        "<" => Token::LessThan(s),
        "<=" => Token::LessThanEq(s),
        ">" => Token::GreaterThan(s),
        ">=" => Token::GreaterThanEq(s),
        "&&" => Token::LogicalAnd(s),
        "||" => Token::LogicalOr(s),
        "++" => Token::Concat(s),
        "//" => Token::Update(s),
        "?" => Token::Question(s),
        "->" => Token::Imply(s),
        "!" => Token::Not(s),
        "assert" => Token::Assert(s),
        "else" => Token::Else(s),
        "if" => Token::If(s),
        "in" => Token::In(s),
        "inherit" => Token::Inherit(s),
        "let" => Token::Let(s),
        "or" => Token::Or(s),
        "rec" => Token::Rec(s),
        "then" => Token::Then(s),
        "with" => Token::With(s),
        "@" => Token::At(s),
        ":" => Token::Colon(s),
        "," => Token::Comma(s),
        "." => Token::Dot(s),
        "..." => Token::Ellipsis(s),
        "=" => Token::Eq(s),
        "{" => Token::LBrace(s),
        "}" => Token::RBrace(s),
        "[" => Token::LBracket(s),
        "]" => Token::RBracket(s),
        "(" => Token::LParen(s),
        ")" => Token::RParen(s),
        ";" => Token::Semi(s),
        "null" => Token::Null(s),
        "true" => Token::Boolean(true, s),
        "false" => Token::Boolean(false, s),
        _ => {
            if let Some(text) = word.strip_prefix('#') {
                Token::Comment(text.to_string(), CommentKind::Line, s)
            } else if word.starts_with('"') && word.ends_with('"') && word.len() >= 2 {
                let inner = &word[1..word.len() - 1];
                let frag = StringFragment::Literal(inner.to_string(), s);
                Token::String(vec![frag], s)
            } else if word.starts_with("./") {
                Token::Path(word.to_string(), s)
            } else if word.chars().all(|c| c.is_ascii_digit()) {
                Token::Integer(word.to_string(), s)
            } else {
                Token::Identifier(word.to_string(), s)
            }
        }
    }
}

fn printed(src: &str) -> String {
    parse_expr(&lex(src)).unwrap().to_string()
}

fn first_error(errors: &Errors) -> &Error {
    assert!(!errors.is_empty());
    errors.get(0)
}

#[test]
fn product_binds_tighter_than_sum() {
    let e = parse_expr(&lex("a + b * c")).unwrap();
    match &e {
        Expr::Binary(b) => {
            assert_eq!(b.op(), BinaryOp::Add);
            match b.right() {
                Expr::Binary(r) => assert_eq!(r.op(), BinaryOp::Mul),
                other => panic!("unexpected {:?}", other),
            }
        }
        other => panic!("unexpected {:?}", other),
    }
    assert_eq!(e.to_string(), "a + b * c");
}

#[test]
fn parentheses_are_kept() {
    assert_eq!(printed("( a + b ) * c"), "(a + b) * c");
}

#[test]
fn update_folds_from_the_right_with_operands_reversed() {
    let e = parse_expr(&lex("a // b // c")).unwrap();
    assert_eq!(e.to_string(), "c // b // a");
    match &e {
        Expr::Binary(b) => {
            assert_eq!(b.op(), BinaryOp::Update);
            match b.left() {
                Expr::Binary(l) => assert_eq!(l.op(), BinaryOp::Update),
                other => panic!("unexpected {:?}", other),
            }
        }
        other => panic!("unexpected {:?}", other),
    }
}

#[test]
fn concat_folds_from_the_right_with_operands_reversed() {
    assert_eq!(printed("a ++ b ++ c"), "c ++ b ++ a");
    assert_eq!(printed("a ++ b"), "b ++ a");
}

#[test]
fn imply_and_or_group_to_the_left() {
    let e = parse_expr(&lex("a -> b -> c")).unwrap();
    match &e {
        Expr::Binary(b) => {
            assert_eq!(b.op(), BinaryOp::Impl);
            match b.left() {
                Expr::Binary(l) => assert_eq!(l.op(), BinaryOp::Impl),
                other => panic!("unexpected {:?}", other),
            }
        }
        other => panic!("unexpected {:?}", other),
    }
    assert_eq!(printed("a || b && c"), "a || b && c");
    assert_eq!(printed("a && b || c"), "a && b || c");
}

#[test]
fn comparisons_take_one_operator() {
    assert_eq!(printed("a < b"), "a < b");
    assert_eq!(printed("a >= b"), "a >= b");
    assert_eq!(printed("a == b"), "a == b");
    assert_eq!(printed("a != b"), "a != b");
    let errors = parse_expr(&lex("a < b < c")).unwrap_err();
    match first_error(&errors) {
        Error::Unexpected(u) => assert_eq!(u.found_text(), "operator `<`"),
        other => panic!("unexpected {:?}", other),
    }
}

#[test]
fn unary_operators() {
    let e = parse_expr(&lex("- a")).unwrap();
    match &e {
        Expr::Unary(u) => assert_eq!(u.op(), UnaryOp::Neg),
        other => panic!("unexpected {:?}", other),
    }
    assert_eq!(e.to_string(), "-a");
    assert_eq!(printed("! a"), "!a");
}

#[test]
fn application_groups_to_the_left() {
    let e = parse_expr(&lex("f a b")).unwrap();
    match &e {
        Expr::FnApp(app) => match app.function() {
            Expr::FnApp(inner) => match inner.function() {
                Expr::Ident(f) => assert_eq!(f.name(), "f"),
                other => panic!("unexpected {:?}", other),
            },
            other => panic!("unexpected {:?}", other),
        },
        other => panic!("unexpected {:?}", other),
    }
    assert_eq!(e.to_string(), "f a b");
}

#[test]
fn projection_reads_an_attribute_path() {
    let e = parse_expr(&lex("a . b . c")).unwrap();
    match &e {
        Expr::Proj(p) => {
            assert_eq!(p.attr().0.len(), 2);
            assert!(p.fallback().is_none());
        }
        other => panic!("unexpected {:?}", other),
    }
    assert_eq!(e.to_string(), "a.b.c");
}

#[test]
fn lists_sets_and_lets() {
    assert_eq!(printed("[ 1 2 3 ]"), "[1 2 3]");
    assert_eq!(printed("[ ]"), "[]");
    assert_eq!(printed("{ a = 1 ; b . c = 2 ; }"), "{a = 1; b.c = 2;}");
    assert_eq!(printed("rec { a = 1 ; }"), "rec {a = 1;}");
    assert_eq!(printed("let { a = 1 ; }"), "let {a = 1;}");
    assert_eq!(printed("let a = 1 ; in a"), "let a = 1; in a");
}

#[test]
fn statements_and_conditionals() {
    assert_eq!(printed("with a ; b"), "with a; b");
    assert_eq!(printed("assert a ; b"), "assert a; b");
    assert_eq!(printed("if a then b else c"), "if a then b else c");
}

#[test]
fn function_declarations() {
    assert_eq!(printed("x : x"), "x: x");
    let e = parse_expr(&lex("{ x , y ? 1 , ... } @ args : x")).unwrap();
    match &e {
        Expr::FnDecl(_) => {}
        other => panic!("unexpected {:?}", other),
    }
    assert_eq!(e.to_string(), "{x, y ? 1, ...}@args:");
    assert_eq!(printed("{ } : 1"), "{}:");
}

#[test]
fn inherit_bindings() {
    assert_eq!(printed("{ inherit a b ; }"), "{inherit a b;}");
    assert_eq!(printed("{ inherit ( s ) a ; }"), "{inherit (s) a;}");
}

#[test]
fn strings_paths_and_literals() {
    assert_eq!(printed("\"hi\""), "\"hi\"");
    assert_eq!(printed("./foo"), "./foo");
    assert_eq!(printed("null"), "null");
    assert_eq!(printed("true"), "true");
    assert_eq!(printed("42"), "42");
}

#[test]
fn interpolation_tokens_parse_their_contents() {
    let inner = vec![Token::Identifier("x".to_string(), Span::new(2, 3)), Token::Eof(Span::new(3, 3))];
    let toks = vec![Token::Interpolation(inner, Span::new(0, 4)), Token::Eof(Span::new(4, 4))];
    let e = parse_expr(&toks).unwrap();
    match &e {
        Expr::Interpolation(_) => {}
        other => panic!("unexpected {:?}", other),
    }
    assert_eq!(e.to_string(), "${x}");
}

#[test]
fn doc_comments_attach_to_bindings() {
    let e = parse_expr(&lex("{ #doc a = 1 ; }")).unwrap();
    assert_eq!(e.to_string(), "{#doc\na = 1;}");
}

#[test]
fn leading_comments_are_skipped() {
    assert_eq!(printed("#c a"), "a");
}

#[test]
fn source_file_keeps_the_last_leading_comment() {
    let file = parse_source_file(&lex("#one #two a")).unwrap();
    assert_eq!(file.comment().unwrap().text(), "two");
    assert_eq!(file.to_string(), "#two\n\na");
    let bare = parse_source_file(&lex("a")).unwrap();
    assert!(bare.comment().is_none());
}

#[test]
fn partial_source_file_requires_a_comment() {
    let errors = parse_source_file_partial(&lex("a")).unwrap_err();
    match first_error(&errors) {
        Error::ExpectedFound(e) => {
            assert_eq!(e.expected_text(), "comment");
            assert_eq!(e.found_text(), "identifier `a`");
        }
        other => panic!("unexpected {:?}", other),
    }
    let file = parse_source_file_partial(&lex("#doc a")).unwrap();
    assert!(!file.has_errors());
    assert_eq!(file.value().unwrap().comment().unwrap().text(), "doc");
}

#[test]
fn unclosed_list_is_reported_and_kept() {
    let partial = parse_expr_partial(&lex("[ 1 2")).unwrap();
    assert!(partial.has_errors());
    assert_eq!(partial.value().unwrap().to_string(), "[1 2]");
    assert!(parse_expr(&lex("[ 1 2")).is_err());
}

#[test]
fn bad_list_element_is_skipped_with_an_error() {
    let partial = parse_expr_partial(&lex("[ 1 ) 2 ]")).unwrap();
    assert_eq!(partial.errors().unwrap().len(), 1);
    assert_eq!(partial.value().unwrap().to_string(), "[1 2]");
}

#[test]
fn trailing_tokens_are_unexpected() {
    let errors = parse_expr(&lex("a )")).unwrap_err();
    match first_error(&errors) {
        Error::Unexpected(u) => {
            assert_eq!(u.found_text(), "right parentheses");
            assert_eq!(u.get_span(), Span::new(2, 3));
        }
        other => panic!("unexpected {:?}", other),
    }
}

#[test]
fn stray_token_becomes_an_error_node() {
    let partial = parse_expr_partial(&lex("+")).unwrap();
    assert_eq!(partial.errors().unwrap().len(), 1);
    match partial.value().unwrap() {
        Expr::Error(s) => assert_eq!(*s, Span::new(0, 1)),
        other => panic!("unexpected {:?}", other),
    }
    assert!(parse_expr(&lex("+")).is_err());
}

#[test]
fn empty_input_is_refused() {
    assert!(parse_expr(&lex("")).is_err());
    assert!(parse_expr_partial(&lex("")).is_err());
}

#[test]
fn spans_cover_the_whole_expression() {
    let e = parse_expr(&lex("f a")).unwrap();
    assert_eq!(e.span(), Span::new(0, 3));
    let l = parse_expr(&lex("[ 1 ]")).unwrap();
    assert_eq!(l.span(), Span::new(0, 5));
}


#[test]
fn equality_ignores_spans() {
    let a = parse_expr(&lex("f a + 1")).unwrap();
    let b = parse_expr(&lex("f   a  +  1")).unwrap();
    assert_ne!(a.span(), b.span());
    assert_eq!(a, b);
    let c = parse_expr(&lex("f a + 2")).unwrap();
    assert_ne!(a, c);
    assert_eq!(parse_expr(&lex("{ a = [ 1 2 ] ; }")).unwrap(), parse_expr(&lex("{  a  = [ 1  2 ] ; }")).unwrap());
    assert_ne!(parse_expr(&lex("[ 1 2 ]")).unwrap(), parse_expr(&lex("[ 1 2 3 ]")).unwrap());
}

#[test]
fn projection_equality_ignores_the_fallback() {
    let path = |a: u32| AttrPath::new(vec![AttrSegment::Ident(Ident::new("b".to_string(), Span::new(a, a + 1)))]);
    let base = |a: u32| Box::new(Expr::Ident(Ident::new("a".to_string(), Span::new(a, a + 1))));
    let with_fallback = Expr::Proj(ExprProj::new(base(0), path(2), Some(base(5)), Span::new(0, 6)));
    let without = Expr::Proj(ExprProj::new(base(0), path(2), None, Span::new(0, 3)));
    assert_eq!(with_fallback, without);
}

#[test]
fn formals_without_ellipsis_never_compare_equal() {
    let plain = parse_expr(&lex("{ x } : x")).unwrap();
    let again = parse_expr(&lex("{ x } : x")).unwrap();
    assert_ne!(plain, again);
    let open = parse_expr(&lex("{ x , ... } : x")).unwrap();
    let open_again = parse_expr(&lex("{ x , ... } : x")).unwrap();
    assert_eq!(open, open_again);
}

#[test]
fn error_nodes_compare_by_span() {
    let a = parse_expr_partial(&lex("+")).unwrap();
    let b = parse_expr_partial(&lex("+")).unwrap();
    assert_eq!(a.value().unwrap(), b.value().unwrap());
    let c = parse_expr_partial(&lex(" +")).unwrap();
    assert_ne!(a.value().unwrap(), c.value().unwrap());
}

#[test]
fn missing_terminator_is_reported_and_skipped() {
    let toks = vec![Token::Semi(Span::new(3, 4)), Token::Eof(Span::new(4, 4))];
    let (p, v) = expect_terminated(&toks, 0, Partial::new(Some(1u32)), TokenKind::Semi);
    assert_eq!(p, 1);
    assert!(!v.has_errors());
    let (q, w) = expect_terminated(&toks, 0, Partial::new(Some(1u32)), TokenKind::RParen);
    assert_eq!(q, 0);
    assert_eq!(w.value(), Some(&1));
    let errors = w.errors().unwrap();
    assert_eq!(errors.len(), 1);
    match errors.get(0) {
        Error::ExpectedFound(e) => {
            assert_eq!(e.expected_text(), "right parentheses");
            assert_eq!(e.found_text(), "semicolon");
        }
        other => panic!("unexpected {:?}", other),
    }
}

fn foo_bar_path() -> AttrPath {
    AttrPath::new(vec![
        AttrSegment::Ident(Ident::new("foo".to_string(), Span::default())),
        AttrSegment::Ident(Ident::new("bar".to_string(), Span::default())),
    ])
}

fn foo_bar_true(first: u32) -> Vec<Token> {
    let at = |a: u32, b: u32| Span::new(first + a, first + b);
    vec![
        Token::Identifier("foo".to_string(), at(0, 3)),
        Token::Dot(at(3, 4)),
        Token::Identifier("bar".to_string(), at(4, 7)),
        Token::Eq(at(8, 9)),
        Token::Boolean(true, at(10, 14)),
        Token::Semi(at(14, 15)),
        Token::Eof(at(15, 15)),
    ]
}

#[test]
fn simple_binds() {
    let uncommented = match nix_parser::parser::expr::bind(&foo_bar_true(0), 0) {
        Ok((_, Bind::Simple(b))) => b,
        other => panic!("unexpected {:?}", other.is_ok()),
    };
    assert_eq!(
        uncommented,
        BindSimple::new(
            None,
            foo_bar_path(),
            Box::new(Expr::Literal(Literal::from_bool(true))),
            Span::default(),
        )
    );

    let mut toks = vec![
        Token::Comment(" hello world ".to_string(), CommentKind::Line, Span::new(0, 14)),
        Token::Comment("this is a   doc comment   ".to_string(), CommentKind::Line, Span::new(16, 43)),
    ];
    toks.extend(foo_bar_true(46));
    let commented = match nix_parser::parser::expr::bind(&toks, 0) {
        Ok((_, Bind::Simple(b))) => b,
        other => panic!("unexpected {:?}", other.is_ok()),
    };
    assert_eq!(
        commented,
        BindSimple::new(
            Some(Comment::new(" hello world \nthis is a   doc comment   ".to_string(), Span::default())),
            foo_bar_path(),
            Box::new(Expr::Literal(Literal::from_bool(true))),
            Span::default(),
        )
    );
}

#[test]
fn equality_is_symmetric_and_transitive() {
    let a = parse_expr(&lex("let x = [ 1 ] ; in x . y")).unwrap();
    let b = parse_expr(&lex("let  x = [ 1 ]  ; in x . y")).unwrap();
    let c = parse_expr(&lex("let x  =  [ 1 ] ;  in  x . y")).unwrap();
    assert!(a == b && b == a);
    assert!(b == c);
    assert!(a == c);
    assert!(a == a);
}

#[test]
fn bad_binding_is_skipped_with_an_error() {
    let partial = parse_expr_partial(&lex("{ a = 1 ; ) b = 2 ; }")).unwrap();
    assert!(partial.has_errors());
    assert_eq!(partial.value().unwrap().to_string(), "{a = 1; b = 2;}");
    assert!(parse_expr(&lex("{ a = 1 ; ) b = 2 ; }")).is_err());
}

#[test]
fn unclosed_set_is_reported_and_kept() {
    let partial = parse_expr_partial(&lex("{ a = 1 ;")).unwrap();
    let errors = partial.errors().unwrap();
    assert_eq!(errors.len(), 1);
    match errors.get(0) {
        Error::ExpectedFound(e) => assert_eq!(e.expected_text(), "right brace"),
        other => panic!("unexpected {:?}", other),
    }
    assert_eq!(partial.value().unwrap().to_string(), "{a = 1;}");
}

#[test]
fn missing_then_becomes_an_error_node() {
    let partial = parse_expr_partial(&lex("if then b else c")).unwrap();
    assert!(partial.has_errors());
    assert_eq!(partial.value().unwrap().to_string(), "if <error> then b else c");
}

#[test]
fn bad_formal_is_skipped_with_an_error() {
    let partial = parse_expr_partial(&lex("{ x , 1 , y } : x")).unwrap();
    assert!(partial.has_errors());
    assert_eq!(partial.value().unwrap().to_string(), "{x, y}:");
}

#[test]
fn clones_keep_text_and_spans() {
    let e = parse_expr(&lex("let a = { b = [ 1 \"x\" ] ; } ; in f a . b")).unwrap();
    let c = e.clone();
    assert_eq!(c, e);
    assert_eq!(c.to_string(), e.to_string());
    assert_eq!(c.span(), e.span());
    let file = parse_source_file(&lex("#doc a")).unwrap();
    let copy = file.clone();
    assert_eq!(copy, file);
    assert_eq!(copy.comment().unwrap().text(), "doc");
}

#[test]
fn or_after_a_projection_is_not_read() {
    let errors = parse_expr(&lex("a . b or c")).unwrap_err();
    match first_error(&errors) {
        Error::Unexpected(u) => assert_eq!(u.found_text(), "keyword `or`"),
        other => panic!("unexpected {:?}", other),
    }
}

#[test]
fn formal_list_at_the_end_reports_the_missing_brace() {
    let toks = lex("x , y");
    let (q, partial) = nix_parser::parser::expr::formals_list(&toks, 0).ok().unwrap();
    assert_eq!(q, 3);
    assert_eq!(partial.value().unwrap().0.len(), 2);
    let errors = partial.errors().unwrap();
    assert_eq!(errors.len(), 1);
    match errors.get(0) {
        Error::ExpectedFound(e) => {
            assert_eq!(e.expected_text(), "right brace");
            assert_eq!(e.found_text(), "<eof>");
        }
        other => panic!("unexpected {:?}", other),
    }
    let (_, empty) = nix_parser::parser::expr::formals_list(&lex(""), 0).ok().unwrap();
    assert_eq!(empty.value().unwrap().0.len(), 0);
    assert_eq!(empty.errors().unwrap().len(), 1);
    let (_, closed) = nix_parser::parser::expr::formals_list(&lex("x }"), 0).ok().unwrap();
    assert!(!closed.has_errors());
}
