use slang::scan_model::ScanError;
use slang::scanner::Scanner;
use slang::token::Token;
use slang::token::TokenKind;

fn scan_ok(src: &str) -> Vec<Token> {
    let mut scanner = Scanner::new(src.to_string());
    scanner.scan().expect("scan should succeed")
}

fn scan_err(src: &str) -> ScanError {
    let mut scanner = Scanner::new(src.to_string());
    match scanner.scan() {
        Ok(_) => panic!("scan should fail"),
        Err(e) => e,
    }
}

fn kinds(tokens: &[Token]) -> Vec<TokenKind> {
    tokens.iter().map(|t| t.kind).collect()
}

#[test]
fn scan_scoped_var_decl_tokens() {
    let tokens = scan_ok("let x : vec2[4] = [1,2,3,4];");
    assert_eq!(
        kinds(&tokens),
        vec![
            TokenKind::KwLet,
            TokenKind::Id,
            TokenKind::Colon,
            TokenKind::KwVec2,
            TokenKind::LBracket,
            TokenKind::NumLit,
            TokenKind::RBracket,
            TokenKind::Assign,
            TokenKind::LBracket,
            TokenKind::NumLit,
            TokenKind::Comma,
            TokenKind::NumLit,
            TokenKind::Comma,
            TokenKind::NumLit,
            TokenKind::Comma,
            TokenKind::NumLit,
            TokenKind::RBracket,
            TokenKind::Semi,
            TokenKind::Eof,
        ]
    );
    assert_eq!(tokens[1].value, "x");
    assert_eq!(tokens[5].value, "4");
    assert_eq!(tokens[9].value, "1");
    assert_eq!(tokens[15].value, "4");
}

#[test]
fn scan_is_idempotent() {
    let src = "vertex entry fn main(p : vec4) -> vec4 { return p; }";
    let first = scan_ok(src);
    let second = scan_ok(src);
    assert_eq!(first.len(), second.len());
    for (a, b) in first.iter().zip(second.iter()) {
        assert_eq!(a.kind, b.kind);
        assert_eq!(a.value, b.value);
        assert_eq!(a.span, b.span);
    }
}

#[test]
fn number_literal_lexeme_round_trips() {
    let tokens = scan_ok("123.45");
    assert_eq!(tokens.len(), 2);
    assert_eq!(tokens[0].kind, TokenKind::NumLit);
    assert_eq!(tokens[0].value, "123.45");
    assert_eq!(tokens[1].kind, TokenKind::Eof);
}

#[test]
fn number_literal_is_not_normalized() {
    let tokens = scan_ok("007.");
    assert_eq!(tokens[0].kind, TokenKind::NumLit);
    assert_eq!(tokens[0].value, "007.");
}

#[test]
fn keywords_are_cut_from_identifiers() {
    let tokens = scan_ok("vertex fragmentx entry lettuce not or and true false");
    assert_eq!(
        kinds(&tokens),
        vec![
            TokenKind::KwVertex,
            TokenKind::Id,
            TokenKind::KwEntry,
            TokenKind::Id,
            TokenKind::KwNot,
            TokenKind::KwOr,
            TokenKind::KwAnd,
            TokenKind::KwTrue,
            TokenKind::KwFalse,
            TokenKind::Eof,
        ]
    );
    assert_eq!(tokens[1].value, "fragmentx");
    assert_eq!(tokens[3].value, "lettuce");
}

#[test]
fn two_character_operators_win_over_prefixes() {
    let tokens = scan_ok("-> <= >= == != - < > = & | + * / %");
    assert_eq!(
        kinds(&tokens),
        vec![
            TokenKind::Arrow,
            TokenKind::Le,
            TokenKind::Ge,
            TokenKind::EqEq,
            TokenKind::BangEq,
            TokenKind::Minus,
            TokenKind::Lt,
            TokenKind::Gt,
            TokenKind::Assign,
            TokenKind::Amp,
            TokenKind::Pipe,
            TokenKind::Plus,
            TokenKind::Star,
            TokenKind::Slash,
            TokenKind::Percent,
            TokenKind::Eof,
        ]
    );
    assert_eq!(tokens[0].value, "->");
    assert_eq!(tokens[4].value, "!=");
}

#[test]
fn unexpected_character_aborts_the_pass() {
    let err = scan_err("let $x : void;");
    assert_eq!(err, ScanError::UnexpectedChar { found: '$', at: 4 });
}

#[test]
fn bang_needs_an_equals_sign() {
    let err = scan_err("!x");
    assert_eq!(err, ScanError::UnexpectedChar { found: 'x', at: 1 });
}

#[test]
fn input_ending_on_bang_is_premature_end() {
    let err = scan_err("a !");
    assert_eq!(err, ScanError::NoMoreChars { at: 3 });
}

#[test]
fn spans_track_lines_and_columns() {
    let tokens = scan_ok("let\n x");
    assert_eq!(tokens[0].kind, TokenKind::KwLet);
    assert_eq!(tokens[0].span.start.line_number, 1);
    assert_eq!(tokens[0].span.start.column, 1);
    assert_eq!(tokens[0].span.end.line_number, 1);
    assert_eq!(tokens[0].span.end.column, 4);
    assert_eq!(tokens[1].kind, TokenKind::Id);
    assert_eq!(tokens[1].span.start.line_number, 2);
    assert_eq!(tokens[1].span.start.column, 2);
    assert_eq!(tokens[1].span.end.line_number, 2);
    assert_eq!(tokens[1].span.end.column, 3);
}

#[test]
fn empty_input_yields_only_the_eof_token() {
    let tokens = scan_ok("");
    assert_eq!(tokens.len(), 1);
    assert_eq!(tokens[0].kind, TokenKind::Eof);
    assert_eq!(tokens[0].value, "");
    assert_eq!(tokens[0].span.start.line_number, 1);
    assert_eq!(tokens[0].span.start.column, 1);
}

#[test]
fn whitespace_only_input_yields_only_the_eof_token() {
    let tokens = scan_ok(" \t\r\n");
    assert_eq!(tokens.len(), 1);
    assert_eq!(tokens[0].kind, TokenKind::Eof);
    assert_eq!(tokens[0].span.start.line_number, 2);
    assert_eq!(tokens[0].span.start.column, 1);
}

#[test]
fn identifiers_may_hold_underscores_and_digits() {
    let tokens = scan_ok("_a1_b2");
    assert_eq!(tokens[0].kind, TokenKind::Id);
    assert_eq!(tokens[0].value, "_a1_b2");
}
