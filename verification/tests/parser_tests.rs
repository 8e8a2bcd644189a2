use slang::ast::Expr;
use slang::ast::Literal;
use slang::parser::Parser;
use slang::parser::ParserError;
use slang::scanner::Scanner;
use slang::token::Token;
use slang::token::TokenKind;

fn scan_ok(src: &str) -> Vec<Token> {
    let mut scanner = Scanner::new(src.to_string());
    scanner.scan().expect("scan should succeed")
}

fn parse_src(src: &str) -> Result<(), ParserError> {
    let mut parser = Parser::new(scan_ok(src));
    parser.parse()
}

fn expr_of(src: &str) -> Expr {
    let mut parser = Parser::new(scan_ok(src));
    parser.expr().expect("expression should parse")
}

fn expr_err(src: &str) -> (Token, Vec<TokenKind>) {
    let mut parser = Parser::new(scan_ok(src));
    match parser.stmt() {
        Ok(()) => panic!("statement should fail to parse"),
        Err(ParserError::UnexpectedToken(t, ks)) => (t, ks),
    }
}

fn id_name(e: &Expr) -> String {
    match e {
        Expr::IdExpr(id) => id.token.value.clone(),
        _ => panic!("expected an identifier expression"),
    }
}

#[test]
fn accepts_scoped_var_decl() {
    assert!(parse_src("let x : vec2[4] = [1,2,3,4];").is_ok());
}

#[test]
fn accepts_function_shapes() {
    assert!(parse_src("fn f ( x : void ) -> void { return x; }").is_ok());
    assert!(parse_src("entry fn f() -> void {}").is_ok());
    assert!(parse_src("fragment fn f() -> void {}").is_ok());
    assert!(parse_src("vertex entry fn f() -> void {}").is_ok());
}

#[test]
fn rejects_expression_cut_short() {
    let (tok, expected) = expr_err("x = 1 +;");
    assert_eq!(tok.kind, TokenKind::Semi);
    assert_eq!(tok.value, ";");
    for k in [
        TokenKind::LParen,
        TokenKind::Minus,
        TokenKind::LBracket,
        TokenKind::Id,
        TokenKind::NumLit,
        TokenKind::KwFalse,
        TokenKind::KwNot,
        TokenKind::KwTrue,
        TokenKind::KwVec2,
        TokenKind::KwVec3,
        TokenKind::KwVec4,
        TokenKind::KwVoid,
    ] {
        assert!(expected.contains(&k));
    }
}

#[test]
fn subtraction_nests_to_the_right() {
    let e = expr_of("a - b - c;");
    match e {
        Expr::BinaryExpr(op, lhs, rhs) => {
            assert_eq!(op.kind, TokenKind::Minus);
            assert_eq!(id_name(&lhs), "a");
            match *rhs {
                Expr::BinaryExpr(op2, l2, r2) => {
                    assert_eq!(op2.kind, TokenKind::Minus);
                    assert_eq!(id_name(&l2), "b");
                    assert_eq!(id_name(&r2), "c");
                },
                _ => panic!("right child should be the nested subtraction"),
            }
        },
        _ => panic!("expected a binary node"),
    }
}

#[test]
fn and_nests_to_the_right() {
    let e = expr_of("a and b and c;");
    match e {
        Expr::BinaryExpr(op, lhs, rhs) => {
            assert_eq!(op.kind, TokenKind::KwAnd);
            assert_eq!(id_name(&lhs), "a");
            match *rhs {
                Expr::BinaryExpr(op2, l2, r2) => {
                    assert_eq!(op2.kind, TokenKind::KwAnd);
                    assert_eq!(id_name(&l2), "b");
                    assert_eq!(id_name(&r2), "c");
                },
                _ => panic!("right child should be the nested conjunction"),
            }
        },
        _ => panic!("expected a binary node"),
    }
}

#[test]
fn chained_comparisons_are_legal_and_right_nested() {
    let e = expr_of("a < b < c;");
    match e {
        Expr::BinaryExpr(op, lhs, rhs) => {
            assert_eq!(op.kind, TokenKind::Lt);
            assert_eq!(id_name(&lhs), "a");
            match *rhs {
                Expr::BinaryExpr(op2, _, _) => assert_eq!(op2.kind, TokenKind::Lt),
                _ => panic!("right child should be the nested comparison"),
            }
        },
        _ => panic!("expected a binary node"),
    }
}

#[test]
fn multiplication_binds_tighter_than_addition() {
    let e = expr_of("a + b * c;");
    match e {
        Expr::BinaryExpr(op, lhs, rhs) => {
            assert_eq!(op.kind, TokenKind::Plus);
            assert_eq!(id_name(&lhs), "a");
            match *rhs {
                Expr::BinaryExpr(op2, _, _) => assert_eq!(op2.kind, TokenKind::Star),
                _ => panic!("right child should be the product"),
            }
        },
        _ => panic!("expected a binary node"),
    }
    let e2 = expr_of("a * b + c;");
    match e2 {
        Expr::BinaryExpr(op, lhs, rhs) => {
            assert_eq!(op.kind, TokenKind::Plus);
            match *lhs {
                Expr::BinaryExpr(op2, _, _) => assert_eq!(op2.kind, TokenKind::Star),
                _ => panic!("left child should be the product"),
            }
            assert_eq!(id_name(&rhs), "c");
        },
        _ => panic!("expected a binary node"),
    }
}

#[test]
fn unary_operators_wrap_their_operand() {
    let e = expr_of("-a;");
    match e {
        Expr::UnaryExpr(op, operand) => {
            assert_eq!(op.kind, TokenKind::Minus);
            assert_eq!(id_name(&operand), "a");
        },
        _ => panic!("expected a unary node"),
    }
    let e2 = expr_of("not true;");
    match e2 {
        Expr::UnaryExpr(op, operand) => {
            assert_eq!(op.kind, TokenKind::KwNot);
            match *operand {
                Expr::LiteralExpr(Literal::Boolean(_, b)) => assert!(b),
                _ => panic!("operand should be the boolean literal"),
            }
        },
        _ => panic!("expected a unary node"),
    }
}

#[test]
fn identifier_tails_build_call_and_lookup_nodes() {
    match expr_of("f(1, x);") {
        Expr::FunctionExpr(id, args) => {
            assert_eq!(id.token.value, "f");
            assert_eq!(args.len(), 2);
            match &args[0] {
                Expr::LiteralExpr(Literal::Number(t)) => assert_eq!(t.value, "1"),
                _ => panic!("first argument should be the number literal"),
            }
        },
        _ => panic!("expected a call node"),
    }
    match expr_of("a[1];") {
        Expr::ArrayLookupExpr(base, index) => {
            assert_eq!(id_name(&base), "a");
            match *index {
                Expr::LiteralExpr(Literal::Number(t)) => assert_eq!(t.value, "1"),
                _ => panic!("index should be the number literal"),
            }
        },
        _ => panic!("expected an array lookup node"),
    }
    match expr_of("a;") {
        Expr::IdExpr(id) => assert_eq!(id.token.value, "a"),
        _ => panic!("expected a bare identifier"),
    }
}

#[test]
fn type_constructors_are_calls_on_the_type_name() {
    match expr_of("vec2(1, 2);") {
        Expr::FunctionExpr(id, args) => {
            assert_eq!(id.token.kind, TokenKind::KwVec2);
            assert_eq!(id.token.value, "vec2");
            assert_eq!(args.len(), 2);
        },
        _ => panic!("expected a call node"),
    }
}

#[test]
fn array_literals_hold_their_elements() {
    match expr_of("[1, true, x];") {
        Expr::LiteralExpr(Literal::Array(items)) => assert_eq!(items.len(), 3),
        _ => panic!("expected an array literal"),
    }
}

#[test]
fn grouping_returns_the_inner_expression() {
    match expr_of("(a);") {
        Expr::IdExpr(id) => assert_eq!(id.token.value, "a"),
        _ => panic!("grouping should hand back the inner expression"),
    }
}

#[test]
fn empty_input_is_rejected_with_the_program_first_set() {
    let mut parser = Parser::new(scan_ok(""));
    match parser.parse() {
        Ok(()) => panic!("an empty program should be rejected"),
        Err(ParserError::UnexpectedToken(t, ks)) => {
            assert_eq!(t.kind, TokenKind::Eof);
            assert_eq!(
                ks,
                vec![
                    TokenKind::KwEntry,
                    TokenKind::KwFn,
                    TokenKind::KwFragment,
                    TokenKind::KwIn,
                    TokenKind::KwLet,
                    TokenKind::KwLoc,
                    TokenKind::KwOut,
                    TokenKind::KwVertex,
                ]
            );
        },
    }
}

#[test]
fn attributes_compose_before_global_bindings() {
    assert!(parse_src("in out loc(0) let v : vec4;").is_ok());
    assert!(parse_src("let v : vec3 = vec3(1, 2, 3);").is_ok());
}

#[test]
fn missing_semicolon_is_reported_at_the_brace() {
    match parse_src("fn f() -> void { return 1 }") {
        Ok(()) => panic!("a missing semicolon should be rejected"),
        Err(ParserError::UnexpectedToken(t, ks)) => {
            assert_eq!(t.kind, TokenKind::RBrace);
            assert_eq!(
                ks,
                vec![
                    TokenKind::BangEq,
                    TokenKind::Percent,
                    TokenKind::Amp,
                    TokenKind::RParen,
                    TokenKind::Star,
                    TokenKind::Plus,
                    TokenKind::Comma,
                    TokenKind::Minus,
                    TokenKind::Slash,
                    TokenKind::Semi,
                    TokenKind::Lt,
                    TokenKind::Le,
                    TokenKind::EqEq,
                    TokenKind::Gt,
                    TokenKind::Ge,
                    TokenKind::RBracket,
                    TokenKind::Pipe,
                    TokenKind::KwAnd,
                    TokenKind::KwOr,
                ]
            );
        },
    }
}

#[test]
fn stage_attribute_must_introduce_a_function() {
    match parse_src("vertex let x : void;") {
        Ok(()) => panic!("a stage attribute on a binding should be rejected"),
        Err(ParserError::UnexpectedToken(t, ks)) => {
            assert_eq!(t.kind, TokenKind::KwLet);
            assert_eq!(ks, vec![TokenKind::KwEntry, TokenKind::KwFn]);
        },
    }
}

#[test]
fn parameters_are_typed_identifiers() {
    assert!(parse_src("fn f(a : vec2, b : void[2]) -> vec4 {}").is_ok());
}

#[test]
fn statements_compose_inside_a_function_body() {
    assert!(
        parse_src("fn f() -> void { let y : vec2 = vec2(1, 2); y = vec2(3, 4); return y; }")
            .is_ok()
    );
}

#[test]
fn whole_program_with_globals_and_functions_is_accepted() {
    let src = "in loc(1) let color : vec4;\n\
               vertex entry fn main(p : vec4) -> vec4 {\n\
                   let q : vec4 = vec4(1, 2, 3, 4);\n\
                   return p;\n\
               }";
    assert!(parse_src(src).is_ok());
}

#[test]
fn only_one_tail_may_follow_an_identifier() {
    let (tok, ks) = expr_err("x = f(1)(2);");
    assert_eq!(tok.kind, TokenKind::LParen);
    assert!(ks.contains(&TokenKind::Semi));
    assert!(!ks.contains(&TokenKind::LParen));
}

#[test]
fn dispatch_failure_consumes_nothing() {
    let mut parser = Parser::new(scan_ok("+;"));
    assert!(parser.stmt().is_err());
    assert_eq!(parser.current_ndx, 0);
}

#[test]
fn a_failed_parse_rests_on_the_offending_token() {
    let mut parser = Parser::new(scan_ok("x = 1 +;"));
    match parser.stmt() {
        Ok(()) => panic!("statement should fail to parse"),
        Err(ParserError::UnexpectedToken(t, _)) => {
            assert_eq!(t.kind, TokenKind::Semi);
            assert_eq!(parser.current_ndx, 4);
            assert_eq!(parser.scanner[parser.current_ndx].kind, t.kind);
            assert_eq!(parser.scanner[parser.current_ndx].value, t.value);
        },
    }
}
