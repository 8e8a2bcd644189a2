use vstd::prelude::*;
use crate::token::{TokenKind, TokenModel};
use crate::ast::SpecExpr;

verus! {

/// Mathematical model of a parse failure: the offending token and the exact
/// set of token kinds that would have been accepted in its place.
#[verifier::ext_equal]
pub ghost struct ParseErrModel {
    pub token: TokenModel,
    pub expected: Seq<TokenKind>,
}

/// Model of the tail that may follow an identifier in an expression: a
/// bracketed index or a parenthesized argument list.
pub ghost enum SpecIdTail {
    ArrayIndex(SpecExpr),
    FuncCall(Seq<SpecExpr>),
}

/// The token at position `i` (unconstrained when `i` is out of range; the
/// parser never reads past the end-of-input token).
pub open spec fn tok_at(toks: Seq<TokenModel>, i: int) -> TokenModel {
    toks[i]
}

/// The failure reported at position `i` with the given expected set.
pub open spec fn unexpected(
    toks: Seq<TokenModel>,
    i: int,
    expected: Seq<TokenKind>,
) -> ParseErrModel {
    ParseErrModel { token: tok_at(toks, i), expected }
}

/// Consuming one terminal: the position after it when the token under the
/// cursor has the requested kind, the failure naming that kind otherwise.
pub open spec fn spec_match(toks: Seq<TokenModel>, i: int, kind: TokenKind) -> Result<
    int,
    ParseErrModel,
> {
    if 0 <= i < toks.len() && toks[i].kind == kind {
        Ok(i + 1)
    } else {
        Err(unexpected(toks, i, seq![kind]))
    }
}

/// The next cursor position taken from a recursive outcome. A successful
/// parse of the nonterminal ahead always lands strictly beyond `i` and within
/// the input; the bounds only make that manifest to the termination checker.
pub open spec fn adv(i: int, j: int, n: int) -> int {
    if j <= i {
        i + 1
    } else if j <= n {
        j
    } else {
        n
    }
}

// ---------------------------------------------------------------------------
// FIRST sets
// ---------------------------------------------------------------------------
/// FIRST of an expression.
pub open spec fn is_first_expr(k: TokenKind) -> bool {
    ||| k == TokenKind::LParen
    ||| k == TokenKind::Minus
    ||| k == TokenKind::LBracket
    ||| k == TokenKind::Id
    ||| k == TokenKind::NumLit
    ||| k == TokenKind::KwFalse
    ||| k == TokenKind::KwNot
    ||| k == TokenKind::KwTrue
    ||| k == TokenKind::KwVec2
    ||| k == TokenKind::KwVec3
    ||| k == TokenKind::KwVec4
    ||| k == TokenKind::KwVoid
}

/// FIRST of a primary expression (no unary operators).
pub open spec fn is_first_base_expr(k: TokenKind) -> bool {
    ||| k == TokenKind::LParen
    ||| k == TokenKind::LBracket
    ||| k == TokenKind::Id
    ||| k == TokenKind::NumLit
    ||| k == TokenKind::KwFalse
    ||| k == TokenKind::KwTrue
    ||| k == TokenKind::KwVec2
    ||| k == TokenKind::KwVec3
    ||| k == TokenKind::KwVec4
    ||| k == TokenKind::KwVoid
}

/// FIRST of a function (stage/entry attributes or the `fn` keyword itself).
pub open spec fn is_first_function(k: TokenKind) -> bool {
    ||| k == TokenKind::KwEntry
    ||| k == TokenKind::KwFn
    ||| k == TokenKind::KwFragment
    ||| k == TokenKind::KwVertex
}

/// FIRST of a scoped variable declaration (attributes or the binding keyword).
pub open spec fn is_first_scoped_var_decl(k: TokenKind) -> bool {
    ||| k == TokenKind::KwIn
    ||| k == TokenKind::KwLet
    ||| k == TokenKind::KwLoc
    ||| k == TokenKind::KwOut
}

/// FIRST of a global statement.
pub open spec fn is_first_global_stmt(k: TokenKind) -> bool {
    is_first_function(k) || is_first_scoped_var_decl(k)
}

/// FIRST of a single attribute.
pub open spec fn is_first_attr(k: TokenKind) -> bool {
    k == TokenKind::KwIn || k == TokenKind::KwLoc || k == TokenKind::KwOut
}

/// FIRST of a statement inside a compound statement.
pub open spec fn is_first_stmt(k: TokenKind) -> bool {
    k == TokenKind::Id || k == TokenKind::KwLet || k == TokenKind::KwReturn
}

/// A comparison-level operator.
pub open spec fn is_comp_op(k: TokenKind) -> bool {
    ||| k == TokenKind::BangEq
    ||| k == TokenKind::Amp
    ||| k == TokenKind::Lt
    ||| k == TokenKind::Le
    ||| k == TokenKind::EqEq
    ||| k == TokenKind::Gt
    ||| k == TokenKind::Ge
    ||| k == TokenKind::Pipe
}

/// An additive-level operator.
pub open spec fn is_add_op(k: TokenKind) -> bool {
    k == TokenKind::Plus || k == TokenKind::Minus
}

/// A multiplicative-level operator.
pub open spec fn is_mul_op(k: TokenKind) -> bool {
    k == TokenKind::Star || k == TokenKind::Slash || k == TokenKind::Percent
}

/// A unary operator.
pub open spec fn is_unary_op(k: TokenKind) -> bool {
    k == TokenKind::Minus || k == TokenKind::KwNot
}

/// A base type name.
pub open spec fn is_base_type(k: TokenKind) -> bool {
    ||| k == TokenKind::KwVec2
    ||| k == TokenKind::KwVec3
    ||| k == TokenKind::KwVec4
    ||| k == TokenKind::KwVoid
}

// ---------------------------------------------------------------------------
// Expected sets, each the union of the FIRST sets of a production's
// alternatives (plus FOLLOW for nullable productions), duplicate-free, in the
// spelling order of the kinds, as the diagnostics print them.
// ---------------------------------------------------------------------------
pub open spec fn exp_program() -> Seq<TokenKind> {
    seq![
        TokenKind::KwEntry,
        TokenKind::KwFn,
        TokenKind::KwFragment,
        TokenKind::KwIn,
        TokenKind::KwLet,
        TokenKind::KwLoc,
        TokenKind::KwOut,
        TokenKind::KwVertex,
    ]
}

pub open spec fn exp_global_stmt_list() -> Seq<TokenKind> {
    seq![TokenKind::Eof] + exp_program()
}

pub open spec fn exp_function() -> Seq<TokenKind> {
    seq![TokenKind::KwEntry, TokenKind::KwFn, TokenKind::KwFragment, TokenKind::KwVertex]
}

pub open spec fn exp_entry_attr() -> Seq<TokenKind> {
    seq![TokenKind::KwEntry, TokenKind::KwFn]
}

pub open spec fn exp_parameters() -> Seq<TokenKind> {
    seq![TokenKind::LParen]
}

pub open spec fn exp_param_list() -> Seq<TokenKind> {
    seq![TokenKind::RParen, TokenKind::Id]
}

pub open spec fn exp_param_list_non_empty() -> Seq<TokenKind> {
    seq![TokenKind::Id]
}

pub open spec fn exp_param_list_tail() -> Seq<TokenKind> {
    seq![TokenKind::RParen, TokenKind::Comma]
}

pub open spec fn exp_scoped_var_decl() -> Seq<TokenKind> {
    seq![TokenKind::KwIn, TokenKind::KwLet, TokenKind::KwLoc, TokenKind::KwOut]
}

pub open spec fn exp_attrs() -> Seq<TokenKind> {
    seq![TokenKind::KwIn, TokenKind::KwLoc, TokenKind::KwOut]
}

pub open spec fn exp_compound_stmt() -> Seq<TokenKind> {
    seq![TokenKind::LBrace]
}

pub open spec fn exp_stmt_list() -> Seq<TokenKind> {
    seq![TokenKind::RBrace, TokenKind::Id, TokenKind::KwLet, TokenKind::KwReturn]
}

pub open spec fn exp_stmt() -> Seq<TokenKind> {
    seq![TokenKind::Id, TokenKind::KwLet, TokenKind::KwReturn]
}

pub open spec fn exp_var_decl() -> Seq<TokenKind> {
    seq![TokenKind::KwLet]
}

pub open spec fn exp_var_decl_tail() -> Seq<TokenKind> {
    seq![TokenKind::Colon]
}

pub open spec fn exp_opt_assignment() -> Seq<TokenKind> {
    seq![TokenKind::Semi, TokenKind::Assign]
}

pub open spec fn exp_expr() -> Seq<TokenKind> {
    seq![
        TokenKind::LParen,
        TokenKind::Minus,
        TokenKind::LBracket,
        TokenKind::Id,
        TokenKind::NumLit,
        TokenKind::KwFalse,
        TokenKind::KwNot,
        TokenKind::KwTrue,
        TokenKind::KwVec2,
        TokenKind::KwVec3,
        TokenKind::KwVec4,
        TokenKind::KwVoid,
    ]
}

pub open spec fn exp_expr_tail() -> Seq<TokenKind> {
    seq![
        TokenKind::RParen,
        TokenKind::Comma,
        TokenKind::Semi,
        TokenKind::RBracket,
        TokenKind::KwOr,
    ]
}

pub open spec fn exp_prod_expr_tail() -> Seq<TokenKind> {
    seq![
        TokenKind::RParen,
        TokenKind::Comma,
        TokenKind::Semi,
        TokenKind::RBracket,
        TokenKind::KwAnd,
        TokenKind::KwOr,
    ]
}

pub open spec fn exp_comp_expr_tail() -> Seq<TokenKind> {
    seq![
        TokenKind::BangEq,
        TokenKind::Amp,
        TokenKind::RParen,
        TokenKind::Comma,
        TokenKind::Semi,
        TokenKind::Lt,
        TokenKind::Le,
        TokenKind::EqEq,
        TokenKind::Gt,
        TokenKind::Ge,
        TokenKind::RBracket,
        TokenKind::Pipe,
        TokenKind::KwAnd,
        TokenKind::KwOr,
    ]
}

pub open spec fn exp_add_expr_tail() -> Seq<TokenKind> {
    seq![
        TokenKind::BangEq,
        TokenKind::Amp,
        TokenKind::RParen,
        TokenKind::Plus,
        TokenKind::Comma,
        TokenKind::Minus,
        TokenKind::Semi,
        TokenKind::Lt,
        TokenKind::Le,
        TokenKind::EqEq,
        TokenKind::Gt,
        TokenKind::Ge,
        TokenKind::RBracket,
        TokenKind::Pipe,
        TokenKind::KwAnd,
        TokenKind::KwOr,
    ]
}

pub open spec fn exp_mul_expr_tail() -> Seq<TokenKind> {
    seq![
        TokenKind::BangEq,
        TokenKind::Percent,
        TokenKind::Amp,
        TokenKind::RParen,
        TokenKind::Star,
        TokenKind::Plus,
        TokenKind::Comma,
        TokenKind::Minus,
        TokenKind::Slash,
        TokenKind::Semi,
        TokenKind::Lt,
        TokenKind::Le,
        TokenKind::EqEq,
        TokenKind::Gt,
        TokenKind::Ge,
        TokenKind::RBracket,
        TokenKind::Pipe,
        TokenKind::KwAnd,
        TokenKind::KwOr,
    ]
}

pub open spec fn exp_unary_expr_head() -> Seq<TokenKind> {
    seq![TokenKind::Minus, TokenKind::KwNot]
}

pub open spec fn exp_base_expr() -> Seq<TokenKind> {
    seq![
        TokenKind::LParen,
        TokenKind::LBracket,
        TokenKind::Id,
        TokenKind::NumLit,
        TokenKind::KwFalse,
        TokenKind::KwTrue,
        TokenKind::KwVec2,
        TokenKind::KwVec3,
        TokenKind::KwVec4,
        TokenKind::KwVoid,
    ]
}

pub open spec fn exp_id_expr() -> Seq<TokenKind> {
    seq![TokenKind::Id]
}

pub open spec fn exp_id_expr_tail() -> Seq<TokenKind> {
    seq![
        TokenKind::BangEq,
        TokenKind::Percent,
        TokenKind::Amp,
        TokenKind::LParen,
        TokenKind::RParen,
        TokenKind::Star,
        TokenKind::Plus,
        TokenKind::Comma,
        TokenKind::Minus,
        TokenKind::Slash,
        TokenKind::Semi,
        TokenKind::Lt,
        TokenKind::Le,
        TokenKind::EqEq,
        TokenKind::Gt,
        TokenKind::Ge,
        TokenKind::LBracket,
        TokenKind::RBracket,
        TokenKind::Pipe,
        TokenKind::KwAnd,
        TokenKind::KwOr,
    ]
}

pub open spec fn exp_array_literal() -> Seq<TokenKind> {
    seq![TokenKind::LBracket]
}

pub open spec fn exp_type_constructor() -> Seq<TokenKind> {
    seq![TokenKind::KwVec2, TokenKind::KwVec3, TokenKind::KwVec4, TokenKind::KwVoid]
}

pub open spec fn exp_expr_list_tail() -> Seq<TokenKind> {
    seq![TokenKind::RParen, TokenKind::Comma, TokenKind::RBracket]
}

pub open spec fn exp_mul_binops() -> Seq<TokenKind> {
    seq![TokenKind::Percent, TokenKind::Star, TokenKind::Slash]
}

pub open spec fn exp_add_binops() -> Seq<TokenKind> {
    seq![TokenKind::Plus, TokenKind::Minus]
}

pub open spec fn exp_comp_binops() -> Seq<TokenKind> {
    seq![
        TokenKind::BangEq,
        TokenKind::Amp,
        TokenKind::Lt,
        TokenKind::Le,
        TokenKind::EqEq,
        TokenKind::Gt,
        TokenKind::Ge,
        TokenKind::Pipe,
    ]
}

pub open spec fn exp_types() -> Seq<TokenKind> {
    seq![TokenKind::KwVec2, TokenKind::KwVec3, TokenKind::KwVec4, TokenKind::KwVoid]
}

pub open spec fn exp_opt_indexing() -> Seq<TokenKind> {
    seq![
        TokenKind::RParen,
        TokenKind::Comma,
        TokenKind::Semi,
        TokenKind::Assign,
        TokenKind::LBracket,
        TokenKind::LBrace,
    ]
}

// ---------------------------------------------------------------------------
// Leaf productions (no recursion)
// ---------------------------------------------------------------------------
/// `mul_binops -> '*' | '/' | '%'`: the operator token and the next position.
pub open spec fn spec_mul_binops(toks: Seq<TokenModel>, i: int) -> Result<
    (TokenModel, int),
    ParseErrModel,
> {
    if 0 <= i < toks.len() && is_mul_op(toks[i].kind) {
        Ok((toks[i], i + 1))
    } else {
        Err(unexpected(toks, i, exp_mul_binops()))
    }
}

/// `add_binops -> '+' | '-'`.
pub open spec fn spec_add_binops(toks: Seq<TokenModel>, i: int) -> Result<
    (TokenModel, int),
    ParseErrModel,
> {
    if 0 <= i < toks.len() && is_add_op(toks[i].kind) {
        Ok((toks[i], i + 1))
    } else {
        Err(unexpected(toks, i, exp_add_binops()))
    }
}

/// `comp_binops -> '==' | '!=' | '<' | '<=' | '>' | '>=' | '&' | '|'`.
pub open spec fn spec_comp_binops(toks: Seq<TokenModel>, i: int) -> Result<
    (TokenModel, int),
    ParseErrModel,
> {
    if 0 <= i < toks.len() && is_comp_op(toks[i].kind) {
        Ok((toks[i], i + 1))
    } else {
        Err(unexpected(toks, i, exp_comp_binops()))
    }
}

/// `unary_ops -> '-' | 'not'`.
pub open spec fn spec_unary_ops(toks: Seq<TokenModel>, i: int) -> Result<
    (TokenModel, int),
    ParseErrModel,
> {
    if 0 <= i < toks.len() && is_unary_op(toks[i].kind) {
        Ok((toks[i], i + 1))
    } else {
        Err(unexpected(toks, i, exp_unary_expr_head()))
    }
}

/// `base_types -> 'void' | 'vec2' | 'vec3' | 'vec4'`: the type-name token.
pub open spec fn spec_base_types(toks: Seq<TokenModel>, i: int) -> Result<
    (TokenModel, int),
    ParseErrModel,
> {
    if 0 <= i < toks.len() && is_base_type(toks[i].kind) {
        Ok((toks[i], i + 1))
    } else {
        Err(unexpected(toks, i, exp_types()))
    }
}

/// `opt_indexing -> '[' NUM_LIT ']' | eps` (eps under FOLLOW of `types`).
pub open spec fn spec_opt_indexing(toks: Seq<TokenModel>, i: int) -> Result<int, ParseErrModel> {
    if 0 <= i < toks.len() && toks[i].kind == TokenKind::LBracket {
        match spec_match(toks, i + 1, TokenKind::NumLit) {
            Ok(j) => spec_match(toks, j, TokenKind::RBracket),
            Err(e) => Err(e),
        }
    } else if 0 <= i < toks.len() && (toks[i].kind == TokenKind::RParen || toks[i].kind
        == TokenKind::Comma || toks[i].kind == TokenKind::Semi || toks[i].kind == TokenKind::Assign
        || toks[i].kind == TokenKind::LBrace) {
        Ok(i)
    } else {
        Err(unexpected(toks, i, exp_opt_indexing()))
    }
}

/// `types -> base_types opt_indexing`: a base type with an optional
/// fixed-size array suffix.
pub open spec fn spec_types(toks: Seq<TokenModel>, i: int) -> Result<int, ParseErrModel> {
    if 0 <= i < toks.len() && is_base_type(toks[i].kind) {
        match spec_base_types(toks, i) {
            Ok((_t, j)) => spec_opt_indexing(toks, j),
            Err(e) => Err(e),
        }
    } else {
        Err(unexpected(toks, i, exp_types()))
    }
}

/// `stage_attr -> 'vertex' | 'fragment' | eps` (eps when `entry` or `fn`
/// follows directly).
pub open spec fn spec_stage_attr(toks: Seq<TokenModel>, i: int) -> Result<int, ParseErrModel> {
    if 0 <= i < toks.len() && toks[i].kind == TokenKind::KwVertex {
        Ok(i + 1)
    } else if 0 <= i < toks.len() && toks[i].kind == TokenKind::KwFragment {
        Ok(i + 1)
    } else if 0 <= i < toks.len() && (toks[i].kind == TokenKind::KwEntry || toks[i].kind
        == TokenKind::KwFn) {
        Ok(i)
    } else {
        Err(unexpected(toks, i, exp_function()))
    }
}

/// `entry_attr -> 'entry' | eps` (eps when `fn` follows directly).
pub open spec fn spec_entry_attr(toks: Seq<TokenModel>, i: int) -> Result<int, ParseErrModel> {
    if 0 <= i < toks.len() && toks[i].kind == TokenKind::KwEntry {
        Ok(i + 1)
    } else if 0 <= i < toks.len() && toks[i].kind == TokenKind::KwFn {
        Ok(i)
    } else {
        Err(unexpected(toks, i, exp_entry_attr()))
    }
}

/// `attrs -> 'in' | 'out' | 'loc' '(' NUM_LIT ')'`: one attribute.
pub open spec fn spec_attrs(toks: Seq<TokenModel>, i: int) -> Result<int, ParseErrModel> {
    if 0 <= i < toks.len() && toks[i].kind == TokenKind::KwOut {
        Ok(i + 1)
    } else if 0 <= i < toks.len() && toks[i].kind == TokenKind::KwIn {
        Ok(i + 1)
    } else if 0 <= i < toks.len() && toks[i].kind == TokenKind::KwLoc {
        match spec_match(toks, i + 1, TokenKind::LParen) {
            Ok(j) => match spec_match(toks, j, TokenKind::NumLit) {
                Ok(j2) => spec_match(toks, j2, TokenKind::RParen),
                Err(e) => Err(e),
            },
            Err(e) => Err(e),
        }
    } else {
        Err(unexpected(toks, i, exp_attrs()))
    }
}

// ---------------------------------------------------------------------------
// The expression grammar: a mutually recursive precedence chain. Each binary
// level parses one operand of the next-higher level and then, on seeing an
// operator of its own level, recurses into itself, so runs of equal-precedence
// operators nest to the right.
// ---------------------------------------------------------------------------
/// Folds an optional operator/right-operand pair onto a left operand.
pub open spec fn combine_bin_expr(lhs: SpecExpr, tail: Option<(TokenModel, SpecExpr)>) -> SpecExpr {
    match tail {
        None => lhs,
        Some((op, rhs)) => SpecExpr::Binary(op, Box::new(lhs), Box::new(rhs)),
    }
}

/// `expr -> prod_expr expr_tail`: the `or` level, lowest binding power.
pub open spec fn spec_expr(toks: Seq<TokenModel>, i: int) -> Result<
    (SpecExpr, int),
    ParseErrModel,
>
    decreases toks.len() - i, 11int,
{
    if 0 <= i < toks.len() && is_first_expr(toks[i].kind) {
        match spec_prod_expr(toks, i) {
            Ok((lhs, j)) => match spec_expr_tail(toks, adv(i, j, toks.len() as int)) {
                Ok((tail, j2)) => Ok((combine_bin_expr(lhs, tail), j2)),
                Err(e) => Err(e),
            },
            Err(e) => Err(e),
        }
    } else {
        Err(unexpected(toks, i, exp_expr()))
    }
}

/// `expr_tail -> 'or' expr | eps` (eps under FOLLOW of `expr`).
pub open spec fn spec_expr_tail(toks: Seq<TokenModel>, i: int) -> Result<
    (Option<(TokenModel, SpecExpr)>, int),
    ParseErrModel,
>
    decreases toks.len() - i, 1int,
{
    if 0 <= i < toks.len() && toks[i].kind == TokenKind::KwOr {
        match spec_expr(toks, i + 1) {
            Ok((rhs, j)) => Ok((Some((toks[i], rhs)), j)),
            Err(e) => Err(e),
        }
    } else if 0 <= i < toks.len() && (toks[i].kind == TokenKind::RParen || toks[i].kind
        == TokenKind::Comma || toks[i].kind == TokenKind::Semi || toks[i].kind
        == TokenKind::RBracket) {
        Ok((None, i))
    } else {
        Err(unexpected(toks, i, exp_expr_tail()))
    }
}

/// `prod_expr -> comp_expr prod_expr_tail`: the `and` level.
pub open spec fn spec_prod_expr(toks: Seq<TokenModel>, i: int) -> Result<
    (SpecExpr, int),
    ParseErrModel,
>
    decreases toks.len() - i, 10int,
{
    if 0 <= i < toks.len() && is_first_expr(toks[i].kind) {
        match spec_comp_expr(toks, i) {
            Ok((lhs, j)) => match spec_prod_expr_tail(toks, adv(i, j, toks.len() as int)) {
                Ok((tail, j2)) => Ok((combine_bin_expr(lhs, tail), j2)),
                Err(e) => Err(e),
            },
            Err(e) => Err(e),
        }
    } else {
        Err(unexpected(toks, i, exp_expr()))
    }
}

/// `prod_expr_tail -> 'and' prod_expr | eps`.
pub open spec fn spec_prod_expr_tail(toks: Seq<TokenModel>, i: int) -> Result<
    (Option<(TokenModel, SpecExpr)>, int),
    ParseErrModel,
>
    decreases toks.len() - i, 1int,
{
    if 0 <= i < toks.len() && toks[i].kind == TokenKind::KwAnd {
        match spec_prod_expr(toks, i + 1) {
            Ok((rhs, j)) => Ok((Some((toks[i], rhs)), j)),
            Err(e) => Err(e),
        }
    } else if 0 <= i < toks.len() && (toks[i].kind == TokenKind::RParen || toks[i].kind
        == TokenKind::Comma || toks[i].kind == TokenKind::Semi || toks[i].kind
        == TokenKind::RBracket || toks[i].kind == TokenKind::KwOr) {
        Ok((None, i))
    } else {
        Err(unexpected(toks, i, exp_prod_expr_tail()))
    }
}

/// `comp_expr -> add_expr comp_expr_tail`: the comparison level.
pub open spec fn spec_comp_expr(toks: Seq<TokenModel>, i: int) -> Result<
    (SpecExpr, int),
    ParseErrModel,
>
    decreases toks.len() - i, 9int,
{
    if 0 <= i < toks.len() && is_first_expr(toks[i].kind) {
        match spec_add_expr(toks, i) {
            Ok((lhs, j)) => match spec_comp_expr_tail(toks, adv(i, j, toks.len() as int)) {
                Ok((tail, j2)) => Ok((combine_bin_expr(lhs, tail), j2)),
                Err(e) => Err(e),
            },
            Err(e) => Err(e),
        }
    } else {
        Err(unexpected(toks, i, exp_expr()))
    }
}

/// `comp_expr_tail -> comp_binops comp_expr | eps`.
pub open spec fn spec_comp_expr_tail(toks: Seq<TokenModel>, i: int) -> Result<
    (Option<(TokenModel, SpecExpr)>, int),
    ParseErrModel,
>
    decreases toks.len() - i, 1int,
{
    if 0 <= i < toks.len() && is_comp_op(toks[i].kind) {
        match spec_comp_expr(toks, i + 1) {
            Ok((rhs, j)) => Ok((Some((toks[i], rhs)), j)),
            Err(e) => Err(e),
        }
    } else if 0 <= i < toks.len() && (toks[i].kind == TokenKind::RParen || toks[i].kind
        == TokenKind::Comma || toks[i].kind == TokenKind::Semi || toks[i].kind
        == TokenKind::RBracket || toks[i].kind == TokenKind::KwAnd || toks[i].kind
        == TokenKind::KwOr) {
        Ok((None, i))
    } else {
        Err(unexpected(toks, i, exp_comp_expr_tail()))
    }
}

/// `add_expr -> mul_expr add_expr_tail`: the additive level.
pub open spec fn spec_add_expr(toks: Seq<TokenModel>, i: int) -> Result<
    (SpecExpr, int),
    ParseErrModel,
>
    decreases toks.len() - i, 8int,
{
    if 0 <= i < toks.len() && is_first_expr(toks[i].kind) {
        match spec_mul_expr(toks, i) {
            Ok((lhs, j)) => match spec_add_expr_tail(toks, adv(i, j, toks.len() as int)) {
                Ok((tail, j2)) => Ok((combine_bin_expr(lhs, tail), j2)),
                Err(e) => Err(e),
            },
            Err(e) => Err(e),
        }
    } else {
        Err(unexpected(toks, i, exp_expr()))
    }
}

/// `add_expr_tail -> add_binops add_expr | eps`.
pub open spec fn spec_add_expr_tail(toks: Seq<TokenModel>, i: int) -> Result<
    (Option<(TokenModel, SpecExpr)>, int),
    ParseErrModel,
>
    decreases toks.len() - i, 1int,
{
    if 0 <= i < toks.len() && is_add_op(toks[i].kind) {
        match spec_add_expr(toks, i + 1) {
            Ok((rhs, j)) => Ok((Some((toks[i], rhs)), j)),
            Err(e) => Err(e),
        }
    } else if 0 <= i < toks.len() && (toks[i].kind == TokenKind::BangEq || toks[i].kind
        == TokenKind::Amp || toks[i].kind == TokenKind::RParen || toks[i].kind == TokenKind::Comma
        || toks[i].kind == TokenKind::Semi || toks[i].kind == TokenKind::Lt || toks[i].kind
        == TokenKind::Le || toks[i].kind == TokenKind::EqEq || toks[i].kind == TokenKind::Gt
        || toks[i].kind == TokenKind::Ge || toks[i].kind == TokenKind::RBracket || toks[i].kind
        == TokenKind::Pipe || toks[i].kind == TokenKind::KwAnd || toks[i].kind == TokenKind::KwOr) {
        Ok((None, i))
    } else {
        Err(unexpected(toks, i, exp_add_expr_tail()))
    }
}

/// `mul_expr -> unary_expr mul_expr_tail`: the multiplicative level.
pub open spec fn spec_mul_expr(toks: Seq<TokenModel>, i: int) -> Result<
    (SpecExpr, int),
    ParseErrModel,
>
    decreases toks.len() - i, 7int,
{
    if 0 <= i < toks.len() && is_first_expr(toks[i].kind) {
        match spec_unary_expr(toks, i) {
            Ok((lhs, j)) => match spec_mul_expr_tail(toks, adv(i, j, toks.len() as int)) {
                Ok((tail, j2)) => Ok((combine_bin_expr(lhs, tail), j2)),
                Err(e) => Err(e),
            },
            Err(e) => Err(e),
        }
    } else {
        Err(unexpected(toks, i, exp_expr()))
    }
}

/// `mul_expr_tail -> mul_binops mul_expr | eps`.
pub open spec fn spec_mul_expr_tail(toks: Seq<TokenModel>, i: int) -> Result<
    (Option<(TokenModel, SpecExpr)>, int),
    ParseErrModel,
>
    decreases toks.len() - i, 1int,
{
    if 0 <= i < toks.len() && is_mul_op(toks[i].kind) {
        match spec_mul_expr(toks, i + 1) {
            Ok((rhs, j)) => Ok((Some((toks[i], rhs)), j)),
            Err(e) => Err(e),
        }
    } else if 0 <= i < toks.len() && (toks[i].kind == TokenKind::BangEq || toks[i].kind
        == TokenKind::Amp || toks[i].kind == TokenKind::RParen || toks[i].kind == TokenKind::Plus
        || toks[i].kind == TokenKind::Comma || toks[i].kind == TokenKind::Minus || toks[i].kind
        == TokenKind::Semi || toks[i].kind == TokenKind::Lt || toks[i].kind == TokenKind::Le
        || toks[i].kind == TokenKind::EqEq || toks[i].kind == TokenKind::Gt || toks[i].kind
        == TokenKind::Ge || toks[i].kind == TokenKind::RBracket || toks[i].kind == TokenKind::Pipe
        || toks[i].kind == TokenKind::KwAnd || toks[i].kind == TokenKind::KwOr) {
        Ok((None, i))
    } else {
        Err(unexpected(toks, i, exp_mul_expr_tail()))
    }
}

/// `unary_expr -> base_expr | unary_expr_head`.
pub open spec fn spec_unary_expr(toks: Seq<TokenModel>, i: int) -> Result<
    (SpecExpr, int),
    ParseErrModel,
>
    decreases toks.len() - i, 6int,
{
    if 0 <= i < toks.len() && is_first_base_expr(toks[i].kind) {
        spec_base_expr(toks, i)
    } else if 0 <= i < toks.len() && is_unary_op(toks[i].kind) {
        spec_unary_expr_head(toks, i)
    } else {
        Err(unexpected(toks, i, exp_expr()))
    }
}

/// `unary_expr_head -> unary_ops unary_expr`: a prefix operator and its
/// operand.
pub open spec fn spec_unary_expr_head(toks: Seq<TokenModel>, i: int) -> Result<
    (SpecExpr, int),
    ParseErrModel,
>
    decreases toks.len() - i, 5int,
{
    if 0 <= i < toks.len() && is_unary_op(toks[i].kind) {
        match spec_unary_expr(toks, i + 1) {
            Ok((operand, j)) => Ok((SpecExpr::Unary(toks[i], Box::new(operand)), j)),
            Err(e) => Err(e),
        }
    } else {
        Err(unexpected(toks, i, exp_unary_expr_head()))
    }
}

/// `base_expr -> type_constructor | id_expr | array_literal | NUM_LIT |
/// 'true' | 'false' | grouped_expr`.
pub open spec fn spec_base_expr(toks: Seq<TokenModel>, i: int) -> Result<
    (SpecExpr, int),
    ParseErrModel,
>
    decreases toks.len() - i, 4int,
{
    if 0 <= i < toks.len() && is_base_type(toks[i].kind) {
        spec_type_constructor(toks, i)
    } else if 0 <= i < toks.len() && toks[i].kind == TokenKind::Id {
        spec_id_expr(toks, i)
    } else if 0 <= i < toks.len() && toks[i].kind == TokenKind::LBracket {
        spec_array_literal(toks, i)
    } else if 0 <= i < toks.len() && toks[i].kind == TokenKind::NumLit {
        Ok((SpecExpr::LitNumber(toks[i]), i + 1))
    } else if 0 <= i < toks.len() && toks[i].kind == TokenKind::KwTrue {
        Ok((SpecExpr::LitBool(toks[i], true), i + 1))
    } else if 0 <= i < toks.len() && toks[i].kind == TokenKind::KwFalse {
        Ok((SpecExpr::LitBool(toks[i], false), i + 1))
    } else if 0 <= i < toks.len() && toks[i].kind == TokenKind::LParen {
        spec_grouped_expr(toks, i)
    } else {
        Err(unexpected(toks, i, exp_base_expr()))
    }
}

/// `id_expr -> ID id_expr_tail`: a bare reference, an array lookup, or a
/// call, depending on the single tail that follows the identifier.
pub open spec fn spec_id_expr(toks: Seq<TokenModel>, i: int) -> Result<
    (SpecExpr, int),
    ParseErrModel,
>
    decreases toks.len() - i, 3int,
{
    if 0 <= i < toks.len() && toks[i].kind == TokenKind::Id {
        match spec_id_expr_tail(toks, i + 1) {
            Ok((tail, j)) => Ok(
                (
                    match tail {
                        None => SpecExpr::Id(toks[i]),
                        Some(SpecIdTail::ArrayIndex(ix)) => SpecExpr::ArrayLookup(
                            Box::new(SpecExpr::Id(toks[i])),
                            Box::new(ix),
                        ),
                        Some(SpecIdTail::FuncCall(args)) => SpecExpr::Call(toks[i], args),
                    },
                    j,
                ),
            ),
            Err(e) => Err(e),
        }
    } else {
        Err(unexpected(toks, i, exp_id_expr()))
    }
}

/// `id_expr_tail -> '[' expr ']' | func_call_args | eps`.
pub open spec fn spec_id_expr_tail(toks: Seq<TokenModel>, i: int) -> Result<
    (Option<SpecIdTail>, int),
    ParseErrModel,
>
    decreases toks.len() - i, 2int,
{
    if 0 <= i < toks.len() && toks[i].kind == TokenKind::LBracket {
        match spec_expr(toks, i + 1) {
            Ok((ix, j)) => match spec_match(toks, j, TokenKind::RBracket) {
                Ok(j2) => Ok((Some(SpecIdTail::ArrayIndex(ix)), j2)),
                Err(e) => Err(e),
            },
            Err(e) => Err(e),
        }
    } else if 0 <= i < toks.len() && toks[i].kind == TokenKind::LParen {
        match spec_func_call_args(toks, i) {
            Ok((args, j)) => Ok((Some(SpecIdTail::FuncCall(args)), j)),
            Err(e) => Err(e),
        }
    } else if 0 <= i < toks.len() && (is_comp_op(toks[i].kind) || is_add_op(toks[i].kind)
        || is_mul_op(toks[i].kind) || toks[i].kind == TokenKind::RParen || toks[i].kind
        == TokenKind::Comma || toks[i].kind == TokenKind::Semi || toks[i].kind
        == TokenKind::RBracket || toks[i].kind == TokenKind::KwAnd || toks[i].kind
        == TokenKind::KwOr) {
        Ok((None, i))
    } else {
        Err(unexpected(toks, i, exp_id_expr_tail()))
    }
}

/// `array_literal -> '[' expr_list ']'`.
pub open spec fn spec_array_literal(toks: Seq<TokenModel>, i: int) -> Result<
    (SpecExpr, int),
    ParseErrModel,
>
    decreases toks.len() - i, 3int,
{
    if 0 <= i < toks.len() && toks[i].kind == TokenKind::LBracket {
        match spec_expr_list(toks, i + 1) {
            Ok((values, j)) => match spec_match(toks, j, TokenKind::RBracket) {
                Ok(j2) => Ok((SpecExpr::LitArray(values), j2)),
                Err(e) => Err(e),
            },
            Err(e) => Err(e),
        }
    } else {
        Err(unexpected(toks, i, exp_array_literal()))
    }
}

/// `type_constructor -> base_types func_call_args`: a typed literal or
/// conversion, represented as a call whose callee is the type name.
pub open spec fn spec_type_constructor(toks: Seq<TokenModel>, i: int) -> Result<
    (SpecExpr, int),
    ParseErrModel,
>
    decreases toks.len() - i, 3int,
{
    if 0 <= i < toks.len() && is_base_type(toks[i].kind) {
        match spec_func_call_args(toks, i + 1) {
            Ok((args, j)) => Ok((SpecExpr::Call(toks[i], args), j)),
            Err(e) => Err(e),
        }
    } else {
        Err(unexpected(toks, i, exp_type_constructor()))
    }
}

/// `func_call_args -> '(' expr_list ')'`.
pub open spec fn spec_func_call_args(toks: Seq<TokenModel>, i: int) -> Result<
    (Seq<SpecExpr>, int),
    ParseErrModel,
>
    decreases toks.len() - i, 1int,
{
    if 0 <= i < toks.len() && toks[i].kind == TokenKind::LParen {
        match spec_expr_list(toks, i + 1) {
            Ok((args, j)) => match spec_match(toks, j, TokenKind::RParen) {
                Ok(j2) => Ok((args, j2)),
                Err(e) => Err(e),
            },
            Err(e) => Err(e),
        }
    } else {
        Err(unexpected(toks, i, exp_parameters()))
    }
}

/// `expr_list -> expr expr_list_tail`: one or more comma-separated
/// expressions.
pub open spec fn spec_expr_list(toks: Seq<TokenModel>, i: int) -> Result<
    (Seq<SpecExpr>, int),
    ParseErrModel,
>
    decreases toks.len() - i, 12int,
{
    if 0 <= i < toks.len() && is_first_expr(toks[i].kind) {
        match spec_expr(toks, i) {
            Ok((head, j)) => match spec_expr_list_tail(toks, adv(i, j, toks.len() as int)) {
                Ok((tail, j2)) => Ok((seq![head] + tail, j2)),
                Err(e) => Err(e),
            },
            Err(e) => Err(e),
        }
    } else {
        Err(unexpected(toks, i, exp_expr()))
    }
}

/// `expr_list_tail -> ',' expr_list | eps`.
pub open spec fn spec_expr_list_tail(toks: Seq<TokenModel>, i: int) -> Result<
    (Seq<SpecExpr>, int),
    ParseErrModel,
>
    decreases toks.len() - i, 1int,
{
    if 0 <= i < toks.len() && toks[i].kind == TokenKind::Comma {
        match spec_expr_list(toks, i + 1) {
            Ok((tail, j)) => Ok((tail, j)),
            Err(e) => Err(e),
        }
    } else if 0 <= i < toks.len() && (toks[i].kind == TokenKind::RParen || toks[i].kind
        == TokenKind::RBracket) {
        Ok((Seq::empty(), i))
    } else {
        Err(unexpected(toks, i, exp_expr_list_tail()))
    }
}

/// `grouped_expr -> '(' expr ')'`.
pub open spec fn spec_grouped_expr(toks: Seq<TokenModel>, i: int) -> Result<
    (SpecExpr, int),
    ParseErrModel,
>
    decreases toks.len() - i, 3int,
{
    if 0 <= i < toks.len() && toks[i].kind == TokenKind::LParen {
        match spec_expr(toks, i + 1) {
            Ok((e, j)) => match spec_match(toks, j, TokenKind::RParen) {
                Ok(j2) => Ok((e, j2)),
                Err(e2) => Err(e2),
            },
            Err(e) => Err(e),
        }
    } else {
        Err(unexpected(toks, i, exp_parameters()))
    }
}

// ---------------------------------------------------------------------------
// Declarations and statements
// ---------------------------------------------------------------------------
/// `opt_attr_list -> attrs opt_attr_list | eps` (eps before the binding
/// keyword).
pub open spec fn spec_opt_attr_list(toks: Seq<TokenModel>, i: int) -> Result<int, ParseErrModel>
    decreases toks.len() - i,
{
    if 0 <= i < toks.len() && is_first_attr(toks[i].kind) {
        match spec_attrs(toks, i) {
            Ok(j) => spec_opt_attr_list(toks, adv(i, j, toks.len() as int)),
            Err(e) => Err(e),
        }
    } else if 0 <= i < toks.len() && toks[i].kind == TokenKind::KwLet {
        Ok(i)
    } else {
        Err(unexpected(toks, i, exp_scoped_var_decl()))
    }
}

/// `param_list_non_empty -> ID ':' types param_list_tail`.
pub open spec fn spec_param_list_non_empty(toks: Seq<TokenModel>, i: int) -> Result<
    int,
    ParseErrModel,
>
    decreases toks.len() - i, 2int,
{
    if 0 <= i < toks.len() && toks[i].kind == TokenKind::Id {
        match spec_match(toks, i + 1, TokenKind::Colon) {
            Ok(j) => match spec_types(toks, j) {
                Ok(j2) => spec_param_list_tail(toks, adv(i, j2, toks.len() as int)),
                Err(e) => Err(e),
            },
            Err(e) => Err(e),
        }
    } else {
        Err(unexpected(toks, i, exp_param_list_non_empty()))
    }
}

/// `param_list_tail -> ',' param_list_non_empty | eps` (eps before `)`).
pub open spec fn spec_param_list_tail(toks: Seq<TokenModel>, i: int) -> Result<int, ParseErrModel>
    decreases toks.len() - i, 1int,
{
    if 0 <= i < toks.len() && toks[i].kind == TokenKind::Comma {
        match spec_param_list_non_empty(toks, i + 1) {
            Ok(j) => Ok(j),
            Err(e) => Err(e),
        }
    } else if 0 <= i < toks.len() && toks[i].kind == TokenKind::RParen {
        Ok(i)
    } else {
        Err(unexpected(toks, i, exp_param_list_tail()))
    }
}

/// `param_list -> param_list_non_empty | eps` (eps before `)`).
pub open spec fn spec_param_list(toks: Seq<TokenModel>, i: int) -> Result<int, ParseErrModel> {
    if 0 <= i < toks.len() && toks[i].kind == TokenKind::Id {
        spec_param_list_non_empty(toks, i)
    } else if 0 <= i < toks.len() && toks[i].kind == TokenKind::RParen {
        Ok(i)
    } else {
        Err(unexpected(toks, i, exp_param_list()))
    }
}

/// `parameters -> '(' param_list ')'`.
pub open spec fn spec_parameters(toks: Seq<TokenModel>, i: int) -> Result<int, ParseErrModel> {
    if 0 <= i < toks.len() && toks[i].kind == TokenKind::LParen {
        match spec_param_list(toks, i + 1) {
            Ok(j) => spec_match(toks, j, TokenKind::RParen),
            Err(e) => Err(e),
        }
    } else {
        Err(unexpected(toks, i, exp_parameters()))
    }
}

/// `function_def -> stage_attr entry_attr 'fn' ID parameters '->' types`.
pub open spec fn spec_function_def(toks: Seq<TokenModel>, i: int) -> Result<int, ParseErrModel> {
    if 0 <= i < toks.len() && is_first_function(toks[i].kind) {
        match spec_stage_attr(toks, i) {
            Ok(j1) => match spec_entry_attr(toks, j1) {
                Ok(j2) => match spec_match(toks, j2, TokenKind::KwFn) {
                    Ok(j3) => match spec_match(toks, j3, TokenKind::Id) {
                        Ok(j4) => match spec_parameters(toks, j4) {
                            Ok(j5) => match spec_match(toks, j5, TokenKind::Arrow) {
                                Ok(j6) => spec_types(toks, j6),
                                Err(e) => Err(e),
                            },
                            Err(e) => Err(e),
                        },
                        Err(e) => Err(e),
                    },
                    Err(e) => Err(e),
                },
                Err(e) => Err(e),
            },
            Err(e) => Err(e),
        }
    } else {
        Err(unexpected(toks, i, exp_function()))
    }
}

/// `var_decl_keyword -> 'let'`.
pub open spec fn spec_var_decl_keyword(toks: Seq<TokenModel>, i: int) -> Result<
    int,
    ParseErrModel,
> {
    if 0 <= i < toks.len() && toks[i].kind == TokenKind::KwLet {
        Ok(i + 1)
    } else {
        Err(unexpected(toks, i, exp_var_decl()))
    }
}

/// `opt_assignment -> '=' expr | eps` (eps before `;`).
pub open spec fn spec_opt_assignment(toks: Seq<TokenModel>, i: int) -> Result<int, ParseErrModel> {
    if 0 <= i < toks.len() && toks[i].kind == TokenKind::Assign {
        match spec_expr(toks, i + 1) {
            Ok((_e, j)) => Ok(j),
            Err(e) => Err(e),
        }
    } else if 0 <= i < toks.len() && toks[i].kind == TokenKind::Semi {
        Ok(i)
    } else {
        Err(unexpected(toks, i, exp_opt_assignment()))
    }
}

/// `var_decl_tail -> ':' types opt_assignment`: the declared type and an
/// optional initializer.
pub open spec fn spec_var_decl_tail(toks: Seq<TokenModel>, i: int) -> Result<int, ParseErrModel> {
    if 0 <= i < toks.len() && toks[i].kind == TokenKind::Colon {
        match spec_types(toks, i + 1) {
            Ok(j) => spec_opt_assignment(toks, j),
            Err(e) => Err(e),
        }
    } else {
        Err(unexpected(toks, i, exp_var_decl_tail()))
    }
}

/// `var_decl -> var_decl_keyword ID var_decl_tail`.
pub open spec fn spec_var_decl(toks: Seq<TokenModel>, i: int) -> Result<int, ParseErrModel> {
    if 0 <= i < toks.len() && toks[i].kind == TokenKind::KwLet {
        match spec_var_decl_keyword(toks, i) {
            Ok(j) => match spec_match(toks, j, TokenKind::Id) {
                Ok(j2) => spec_var_decl_tail(toks, j2),
                Err(e) => Err(e),
            },
            Err(e) => Err(e),
        }
    } else {
        Err(unexpected(toks, i, exp_var_decl()))
    }
}

/// `stmt -> 'return' expr ';' | var_decl ';' | ID '=' expr ';'`.
pub open spec fn spec_stmt(toks: Seq<TokenModel>, i: int) -> Result<int, ParseErrModel> {
    if 0 <= i < toks.len() && toks[i].kind == TokenKind::KwReturn {
        match spec_expr(toks, i + 1) {
            Ok((_e, j)) => spec_match(toks, j, TokenKind::Semi),
            Err(e) => Err(e),
        }
    } else if 0 <= i < toks.len() && toks[i].kind == TokenKind::KwLet {
        match spec_var_decl(toks, i) {
            Ok(j) => spec_match(toks, j, TokenKind::Semi),
            Err(e) => Err(e),
        }
    } else if 0 <= i < toks.len() && toks[i].kind == TokenKind::Id {
        match spec_match(toks, i + 1, TokenKind::Assign) {
            Ok(j) => match spec_expr(toks, j) {
                Ok((_e, j2)) => spec_match(toks, j2, TokenKind::Semi),
                Err(e) => Err(e),
            },
            Err(e) => Err(e),
        }
    } else {
        Err(unexpected(toks, i, exp_stmt()))
    }
}

/// `stmt_list -> stmt stmt_list | eps` (eps before `}`).
pub open spec fn spec_stmt_list(toks: Seq<TokenModel>, i: int) -> Result<int, ParseErrModel>
    decreases toks.len() - i,
{
    if 0 <= i < toks.len() && is_first_stmt(toks[i].kind) {
        match spec_stmt(toks, i) {
            Ok(j) => spec_stmt_list(toks, adv(i, j, toks.len() as int)),
            Err(e) => Err(e),
        }
    } else if 0 <= i < toks.len() && toks[i].kind == TokenKind::RBrace {
        Ok(i)
    } else {
        Err(unexpected(toks, i, exp_stmt_list()))
    }
}

/// `compound_stmt -> '{' stmt_list '}'`.
pub open spec fn spec_compound_stmt(toks: Seq<TokenModel>, i: int) -> Result<int, ParseErrModel> {
    if 0 <= i < toks.len() && toks[i].kind == TokenKind::LBrace {
        match spec_stmt_list(toks, i + 1) {
            Ok(j) => spec_match(toks, j, TokenKind::RBrace),
            Err(e) => Err(e),
        }
    } else {
        Err(unexpected(toks, i, exp_compound_stmt()))
    }
}

/// `function -> function_def compound_stmt`.
pub open spec fn spec_function(toks: Seq<TokenModel>, i: int) -> Result<int, ParseErrModel> {
    if 0 <= i < toks.len() && is_first_function(toks[i].kind) {
        match spec_function_def(toks, i) {
            Ok(j) => spec_compound_stmt(toks, j),
            Err(e) => Err(e),
        }
    } else {
        Err(unexpected(toks, i, exp_function()))
    }
}

/// `global_var_decl -> opt_attr_list var_decl ';'`.
pub open spec fn spec_global_var_decl(toks: Seq<TokenModel>, i: int) -> Result<
    int,
    ParseErrModel,
> {
    if 0 <= i < toks.len() && is_first_scoped_var_decl(toks[i].kind) {
        match spec_opt_attr_list(toks, i) {
            Ok(j) => match spec_var_decl(toks, j) {
                Ok(j2) => spec_match(toks, j2, TokenKind::Semi),
                Err(e) => Err(e),
            },
            Err(e) => Err(e),
        }
    } else {
        Err(unexpected(toks, i, exp_scoped_var_decl()))
    }
}

/// `global_stmt -> function | global_var_decl`.
pub open spec fn spec_global_stmt(toks: Seq<TokenModel>, i: int) -> Result<int, ParseErrModel> {
    if 0 <= i < toks.len() && is_first_function(toks[i].kind) {
        spec_function(toks, i)
    } else if 0 <= i < toks.len() && is_first_scoped_var_decl(toks[i].kind) {
        spec_global_var_decl(toks, i)
    } else {
        Err(unexpected(toks, i, exp_program()))
    }
}

/// `global_stmt_list -> global_stmt global_stmt_list | eps` (eps at the
/// end-of-input token).
pub open spec fn spec_global_stmt_list(toks: Seq<TokenModel>, i: int) -> Result<
    int,
    ParseErrModel,
>
    decreases toks.len() - i,
{
    if 0 <= i < toks.len() && is_first_global_stmt(toks[i].kind) {
        match spec_global_stmt(toks, i) {
            Ok(j) => spec_global_stmt_list(toks, adv(i, j, toks.len() as int)),
            Err(e) => Err(e),
        }
    } else if 0 <= i < toks.len() && toks[i].kind == TokenKind::Eof {
        Ok(i)
    } else {
        Err(unexpected(toks, i, exp_global_stmt_list()))
    }
}

/// `program -> global_stmt global_stmt_list`: at least one global statement.
pub open spec fn spec_program(toks: Seq<TokenModel>, i: int) -> Result<int, ParseErrModel> {
    if 0 <= i < toks.len() && is_first_global_stmt(toks[i].kind) {
        match spec_global_stmt(toks, i) {
            Ok(j) => spec_global_stmt_list(toks, adv(i, j, toks.len() as int)),
            Err(e) => Err(e),
        }
    } else {
        Err(unexpected(toks, i, exp_program()))
    }
}

/// The whole parse: a program followed by the end-of-input token, which is
/// consumed too.
pub open spec fn spec_parse(toks: Seq<TokenModel>) -> Result<int, ParseErrModel> {
    match spec_program(toks, 0) {
        Ok(j) => spec_match(toks, j, TokenKind::Eof),
        Err(e) => Err(e),
    }
}

/// A successful parse of this level consumes at least one token and stays
/// within the input.
pub proof fn lemma_expr_progress(toks: Seq<TokenModel>, i: int)
    ensures
        spec_expr(toks, i) matches Ok((e, j)) ==> i < j <= toks.len(),
    decreases toks.len() - i, 11int,
{
    let n = toks.len() as int;
    if 0 <= i < n && is_first_expr(toks[i].kind) {
        lemma_prod_expr_progress(toks, i);
        match spec_prod_expr(toks, i) {
            Ok((lhs, j)) => {
                lemma_expr_tail_progress(toks, adv(i, j, n));
            },
            Err(_) => {},
        }
    }
}

/// A successful parse of this level consumes at least one token and stays
/// within the input.
pub proof fn lemma_prod_expr_progress(toks: Seq<TokenModel>, i: int)
    ensures
        spec_prod_expr(toks, i) matches Ok((e, j)) ==> i < j <= toks.len(),
    decreases toks.len() - i, 10int,
{
    let n = toks.len() as int;
    if 0 <= i < n && is_first_expr(toks[i].kind) {
        lemma_comp_expr_progress(toks, i);
        match spec_comp_expr(toks, i) {
            Ok((lhs, j)) => {
                lemma_prod_expr_tail_progress(toks, adv(i, j, n));
            },
            Err(_) => {},
        }
    }
}

/// A successful parse of this level consumes at least one token and stays
/// within the input.
pub proof fn lemma_comp_expr_progress(toks: Seq<TokenModel>, i: int)
    ensures
        spec_comp_expr(toks, i) matches Ok((e, j)) ==> i < j <= toks.len(),
    decreases toks.len() - i, 9int,
{
    let n = toks.len() as int;
    if 0 <= i < n && is_first_expr(toks[i].kind) {
        lemma_add_expr_progress(toks, i);
        match spec_add_expr(toks, i) {
            Ok((lhs, j)) => {
                lemma_comp_expr_tail_progress(toks, adv(i, j, n));
            },
            Err(_) => {},
        }
    }
}

/// A successful parse of this level consumes at least one token and stays
/// within the input.
pub proof fn lemma_add_expr_progress(toks: Seq<TokenModel>, i: int)
    ensures
        spec_add_expr(toks, i) matches Ok((e, j)) ==> i < j <= toks.len(),
    decreases toks.len() - i, 8int,
{
    let n = toks.len() as int;
    if 0 <= i < n && is_first_expr(toks[i].kind) {
        lemma_mul_expr_progress(toks, i);
        match spec_mul_expr(toks, i) {
            Ok((lhs, j)) => {
                lemma_add_expr_tail_progress(toks, adv(i, j, n));
            },
            Err(_) => {},
        }
    }
}

/// A successful parse of this level consumes at least one token and stays
/// within the input.
pub proof fn lemma_mul_expr_progress(toks: Seq<TokenModel>, i: int)
    ensures
        spec_mul_expr(toks, i) matches Ok((e, j)) ==> i < j <= toks.len(),
    decreases toks.len() - i, 7int,
{
    let n = toks.len() as int;
    if 0 <= i < n && is_first_expr(toks[i].kind) {
        lemma_unary_expr_progress(toks, i);
        match spec_unary_expr(toks, i) {
            Ok((lhs, j)) => {
                lemma_mul_expr_tail_progress(toks, adv(i, j, n));
            },
            Err(_) => {},
        }
    }
}

/// A successful parse of this optional continuation never retreats and stays
/// within the input.
pub proof fn lemma_expr_tail_progress(toks: Seq<TokenModel>, i: int)
    ensures
        spec_expr_tail(toks, i) matches Ok((t, j)) ==> i <= j <= toks.len(),
    decreases toks.len() - i, 1int,
{
    if 0 <= i < toks.len() && toks[i].kind == TokenKind::KwOr {
        lemma_expr_progress(toks, i + 1);
    }
}

/// A successful parse of this optional continuation never retreats and stays
/// within the input.
pub proof fn lemma_prod_expr_tail_progress(toks: Seq<TokenModel>, i: int)
    ensures
        spec_prod_expr_tail(toks, i) matches Ok((t, j)) ==> i <= j <= toks.len(),
    decreases toks.len() - i, 1int,
{
    if 0 <= i < toks.len() && toks[i].kind == TokenKind::KwAnd {
        lemma_prod_expr_progress(toks, i + 1);
    }
}

/// A successful parse of this optional continuation never retreats and stays
/// within the input.
pub proof fn lemma_comp_expr_tail_progress(toks: Seq<TokenModel>, i: int)
    ensures
        spec_comp_expr_tail(toks, i) matches Ok((t, j)) ==> i <= j <= toks.len(),
    decreases toks.len() - i, 1int,
{
    if 0 <= i < toks.len() && is_comp_op(toks[i].kind) {
        lemma_comp_expr_progress(toks, i + 1);
    }
}

/// A successful parse of this optional continuation never retreats and stays
/// within the input.
pub proof fn lemma_add_expr_tail_progress(toks: Seq<TokenModel>, i: int)
    ensures
        spec_add_expr_tail(toks, i) matches Ok((t, j)) ==> i <= j <= toks.len(),
    decreases toks.len() - i, 1int,
{
    if 0 <= i < toks.len() && is_add_op(toks[i].kind) {
        lemma_add_expr_progress(toks, i + 1);
    }
}

/// A successful parse of this optional continuation never retreats and stays
/// within the input.
pub proof fn lemma_mul_expr_tail_progress(toks: Seq<TokenModel>, i: int)
    ensures
        spec_mul_expr_tail(toks, i) matches Ok((t, j)) ==> i <= j <= toks.len(),
    decreases toks.len() - i, 1int,
{
    if 0 <= i < toks.len() && is_mul_op(toks[i].kind) {
        lemma_mul_expr_progress(toks, i + 1);
    }
}
/// A successful parse of a unary expression consumes at least one token and
/// stays within the input.
pub proof fn lemma_unary_expr_progress(toks: Seq<TokenModel>, i: int)
    ensures
        spec_unary_expr(toks, i) matches Ok((e, j)) ==> i < j <= toks.len(),
    decreases toks.len() - i, 6int,
{
    if 0 <= i < toks.len() {
        if is_first_base_expr(toks[i].kind) {
            lemma_base_expr_progress(toks, i);
        } else if is_unary_op(toks[i].kind) {
            lemma_unary_expr_head_progress(toks, i);
        }
    }
}

/// A successful parse of a prefix operator and its operand consumes at least
/// one token and stays within the input.
pub proof fn lemma_unary_expr_head_progress(toks: Seq<TokenModel>, i: int)
    ensures
        spec_unary_expr_head(toks, i) matches Ok((e, j)) ==> i < j <= toks.len(),
    decreases toks.len() - i, 5int,
{
    if 0 <= i < toks.len() && is_unary_op(toks[i].kind) {
        lemma_unary_expr_progress(toks, i + 1);
    }
}

/// A successful parse of a primary expression consumes at least one token and
/// stays within the input.
pub proof fn lemma_base_expr_progress(toks: Seq<TokenModel>, i: int)
    ensures
        spec_base_expr(toks, i) matches Ok((e, j)) ==> i < j <= toks.len(),
    decreases toks.len() - i, 4int,
{
    lemma_type_constructor_progress(toks, i);
    lemma_id_expr_progress(toks, i);
    lemma_array_literal_progress(toks, i);
    lemma_grouped_expr_progress(toks, i);
}

/// A successful parse of an identifier expression consumes at least one token
/// and stays within the input.
pub proof fn lemma_id_expr_progress(toks: Seq<TokenModel>, i: int)
    ensures
        spec_id_expr(toks, i) matches Ok((e, j)) ==> i < j <= toks.len(),
    decreases toks.len() - i, 3int,
{
    if 0 <= i < toks.len() && toks[i].kind == TokenKind::Id {
        lemma_id_expr_tail_progress(toks, i + 1);
    }
}

/// A successful parse of an identifier tail never retreats and stays within
/// the input.
pub proof fn lemma_id_expr_tail_progress(toks: Seq<TokenModel>, i: int)
    ensures
        spec_id_expr_tail(toks, i) matches Ok((t, j)) ==> i <= j <= toks.len(),
    decreases toks.len() - i, 2int,
{
    if 0 <= i < toks.len() {
        if toks[i].kind == TokenKind::LBracket {
            lemma_expr_progress(toks, i + 1);
        } else if toks[i].kind == TokenKind::LParen {
            lemma_func_call_args_progress(toks, i);
        }
    }
}

/// A successful parse of an array literal consumes at least one token and
/// stays within the input.
pub proof fn lemma_array_literal_progress(toks: Seq<TokenModel>, i: int)
    ensures
        spec_array_literal(toks, i) matches Ok((e, j)) ==> i < j <= toks.len(),
    decreases toks.len() - i, 3int,
{
    if 0 <= i < toks.len() && toks[i].kind == TokenKind::LBracket {
        lemma_expr_list_progress(toks, i + 1);
    }
}

/// A successful parse of a type constructor consumes at least one token and
/// stays within the input.
pub proof fn lemma_type_constructor_progress(toks: Seq<TokenModel>, i: int)
    ensures
        spec_type_constructor(toks, i) matches Ok((e, j)) ==> i < j <= toks.len(),
    decreases toks.len() - i, 3int,
{
    if 0 <= i < toks.len() && is_base_type(toks[i].kind) {
        lemma_func_call_args_progress(toks, i + 1);
    }
}

/// A successful parse of an argument list consumes at least one token and
/// stays within the input.
pub proof fn lemma_func_call_args_progress(toks: Seq<TokenModel>, i: int)
    ensures
        spec_func_call_args(toks, i) matches Ok((args, j)) ==> i < j <= toks.len(),
    decreases toks.len() - i, 1int,
{
    if 0 <= i < toks.len() && toks[i].kind == TokenKind::LParen {
        lemma_expr_list_progress(toks, i + 1);
    }
}

/// A successful parse of an expression list consumes at least one token and
/// stays within the input.
pub proof fn lemma_expr_list_progress(toks: Seq<TokenModel>, i: int)
    ensures
        spec_expr_list(toks, i) matches Ok((es, j)) ==> i < j <= toks.len(),
    decreases toks.len() - i, 12int,
{
    let n = toks.len() as int;
    if 0 <= i < n && is_first_expr(toks[i].kind) {
        lemma_expr_progress(toks, i);
        match spec_expr(toks, i) {
            Ok((head, j)) => {
                lemma_expr_list_tail_progress(toks, adv(i, j, n));
            },
            Err(_) => {},
        }
    }
}

/// A successful parse of an expression-list continuation never retreats and
/// stays within the input.
pub proof fn lemma_expr_list_tail_progress(toks: Seq<TokenModel>, i: int)
    ensures
        spec_expr_list_tail(toks, i) matches Ok((es, j)) ==> i <= j <= toks.len(),
    decreases toks.len() - i, 1int,
{
    if 0 <= i < toks.len() && toks[i].kind == TokenKind::Comma {
        lemma_expr_list_progress(toks, i + 1);
    }
}

/// A successful parse of a parenthesized sub-expression consumes at least one
/// token and stays within the input.
pub proof fn lemma_grouped_expr_progress(toks: Seq<TokenModel>, i: int)
    ensures
        spec_grouped_expr(toks, i) matches Ok((e, j)) ==> i < j <= toks.len(),
    decreases toks.len() - i, 3int,
{
    if 0 <= i < toks.len() && toks[i].kind == TokenKind::LParen {
        lemma_expr_progress(toks, i + 1);
    }
}

/// Right-nesting law at the additive level: an operand, a `+` or `-`, and an
/// additive expression parse as one binary node whose right child is the whole
/// rest, so `a - b - c` parses as `a - (b - c)`, not `(a - b) - c`.
pub proof fn lemma_add_level_right_nests(
    toks: Seq<TokenModel>,
    i: int,
    e1: SpecExpr,
    j: int,
    e2: SpecExpr,
    k: int,
)
    requires
        spec_mul_expr(toks, i) == Ok::<(SpecExpr, int), ParseErrModel>((e1, j)),
        j < toks.len(),
        is_add_op(toks[j].kind),
        spec_add_expr(toks, j + 1) == Ok::<(SpecExpr, int), ParseErrModel>((e2, k)),
    ensures
        spec_add_expr(toks, i) == Ok::<(SpecExpr, int), ParseErrModel>(
            (SpecExpr::Binary(toks[j], Box::new(e1), Box::new(e2)), k),
        ),
{
    lemma_mul_expr_progress(toks, i);
    assert(adv(i, j, toks.len() as int) == j);
    assert(spec_add_expr_tail(toks, j) == Ok::<(Option<(TokenModel, SpecExpr)>, int),
        ParseErrModel>((Some((toks[j], e2)), k)));
}

/// Right-nesting law at the `and` level: `a and b and c` parses as
/// `a and (b and c)`.
pub proof fn lemma_and_level_right_nests(
    toks: Seq<TokenModel>,
    i: int,
    e1: SpecExpr,
    j: int,
    e2: SpecExpr,
    k: int,
)
    requires
        spec_comp_expr(toks, i) == Ok::<(SpecExpr, int), ParseErrModel>((e1, j)),
        j < toks.len(),
        toks[j].kind == TokenKind::KwAnd,
        spec_prod_expr(toks, j + 1) == Ok::<(SpecExpr, int), ParseErrModel>((e2, k)),
    ensures
        spec_prod_expr(toks, i) == Ok::<(SpecExpr, int), ParseErrModel>(
            (SpecExpr::Binary(toks[j], Box::new(e1), Box::new(e2)), k),
        ),
{
    lemma_comp_expr_progress(toks, i);
    assert(adv(i, j, toks.len() as int) == j);
    assert(spec_prod_expr_tail(toks, j) == Ok::<(Option<(TokenModel, SpecExpr)>, int),
        ParseErrModel>((Some((toks[j], e2)), k)));
}

/// Right-nesting law at the comparison level: chained comparisons are
/// syntactically legal and `a < b < c` parses as `a < (b < c)`.
pub proof fn lemma_comparison_level_right_nests(
    toks: Seq<TokenModel>,
    i: int,
    e1: SpecExpr,
    j: int,
    e2: SpecExpr,
    k: int,
)
    requires
        spec_add_expr(toks, i) == Ok::<(SpecExpr, int), ParseErrModel>((e1, j)),
        j < toks.len(),
        is_comp_op(toks[j].kind),
        spec_comp_expr(toks, j + 1) == Ok::<(SpecExpr, int), ParseErrModel>((e2, k)),
    ensures
        spec_comp_expr(toks, i) == Ok::<(SpecExpr, int), ParseErrModel>(
            (SpecExpr::Binary(toks[j], Box::new(e1), Box::new(e2)), k),
        ),
{
    lemma_add_expr_progress(toks, i);
    assert(adv(i, j, toks.len() as int) == j);
    assert(spec_comp_expr_tail(toks, j) == Ok::<(Option<(TokenModel, SpecExpr)>, int),
        ParseErrModel>((Some((toks[j], e2)), k)));
}

/// Dispatch law for the statement-level productions: whenever the token under
/// the cursor is not in a production's FIRST set (together with its FOLLOW
/// set, for a nullable production), that production fails at once, naming
/// exactly that token and exactly its computed expected set. Here `k` is the
/// kind of the token under the cursor.
pub proof fn lemma_first_set_errors_stmts(toks: Seq<TokenModel>, i: int, k: TokenKind)
    requires
        0 <= i < toks.len(),
        k == toks[i].kind,
    ensures
        !(is_first_global_stmt(k)) ==> spec_program(toks, i) == Err::<int, ParseErrModel>(
            unexpected(toks, i, exp_program()),
        ),
        !(is_first_global_stmt(k) || k == TokenKind::Eof) ==> spec_global_stmt_list(toks, i) == Err::<int, ParseErrModel>(
            unexpected(toks, i, exp_global_stmt_list()),
        ),
        !(is_first_global_stmt(k)) ==> spec_global_stmt(toks, i) == Err::<int, ParseErrModel>(
            unexpected(toks, i, exp_program()),
        ),
        !(is_first_function(k)) ==> spec_function(toks, i) == Err::<int, ParseErrModel>(
            unexpected(toks, i, exp_function()),
        ),
        !(k == TokenKind::KwVertex || k == TokenKind::KwFragment || k == TokenKind::KwEntry || k == TokenKind::KwFn) ==> spec_stage_attr(toks, i) == Err::<int, ParseErrModel>(
            unexpected(toks, i, exp_function()),
        ),
        !(k == TokenKind::KwEntry || k == TokenKind::KwFn) ==> spec_entry_attr(toks, i) == Err::<int, ParseErrModel>(
            unexpected(toks, i, exp_entry_attr()),
        ),
        !(is_first_function(k)) ==> spec_function_def(toks, i) == Err::<int, ParseErrModel>(
            unexpected(toks, i, exp_function()),
        ),
        !(k == TokenKind::LParen) ==> spec_parameters(toks, i) == Err::<int, ParseErrModel>(
            unexpected(toks, i, exp_parameters()),
        ),
        !(k == TokenKind::Id || k == TokenKind::RParen) ==> spec_param_list(toks, i) == Err::<int, ParseErrModel>(
            unexpected(toks, i, exp_param_list()),
        ),
        !(k == TokenKind::Id) ==> spec_param_list_non_empty(toks, i) == Err::<int, ParseErrModel>(
            unexpected(toks, i, exp_param_list_non_empty()),
        ),
        !(k == TokenKind::Comma || k == TokenKind::RParen) ==> spec_param_list_tail(toks, i) == Err::<int, ParseErrModel>(
            unexpected(toks, i, exp_param_list_tail()),
        ),
        !(is_first_scoped_var_decl(k)) ==> spec_global_var_decl(toks, i) == Err::<int, ParseErrModel>(
            unexpected(toks, i, exp_scoped_var_decl()),
        ),
        !(is_first_attr(k) || k == TokenKind::KwLet) ==> spec_opt_attr_list(toks, i) == Err::<int, ParseErrModel>(
            unexpected(toks, i, exp_scoped_var_decl()),
        ),
        !(is_first_attr(k)) ==> spec_attrs(toks, i) == Err::<int, ParseErrModel>(
            unexpected(toks, i, exp_attrs()),
        ),
        !(k == TokenKind::LBrace) ==> spec_compound_stmt(toks, i) == Err::<int, ParseErrModel>(
            unexpected(toks, i, exp_compound_stmt()),
        ),
        !(is_first_stmt(k) || k == TokenKind::RBrace) ==> spec_stmt_list(toks, i) == Err::<int, ParseErrModel>(
            unexpected(toks, i, exp_stmt_list()),
        ),
        !(is_first_stmt(k)) ==> spec_stmt(toks, i) == Err::<int, ParseErrModel>(
            unexpected(toks, i, exp_stmt()),
        ),
        !(k == TokenKind::KwLet) ==> spec_var_decl(toks, i) == Err::<int, ParseErrModel>(
            unexpected(toks, i, exp_var_decl()),
        ),
        !(k == TokenKind::KwLet) ==> spec_var_decl_keyword(toks, i) == Err::<int, ParseErrModel>(
            unexpected(toks, i, exp_var_decl()),
        ),
        !(k == TokenKind::Colon) ==> spec_var_decl_tail(toks, i) == Err::<int, ParseErrModel>(
            unexpected(toks, i, exp_var_decl_tail()),
        ),
        !(k == TokenKind::Assign || k == TokenKind::Semi) ==> spec_opt_assignment(toks, i) == Err::<int, ParseErrModel>(
            unexpected(toks, i, exp_opt_assignment()),
        ),
        !(is_base_type(k)) ==> spec_types(toks, i) == Err::<int, ParseErrModel>(
            unexpected(toks, i, exp_types()),
        ),
        !(k == TokenKind::LBracket || k == TokenKind::RParen || k == TokenKind::Comma || k == TokenKind::Semi || k == TokenKind::Assign || k == TokenKind::LBrace) ==> spec_opt_indexing(toks, i) == Err::<int, ParseErrModel>(
            unexpected(toks, i, exp_opt_indexing()),
        ),
{
}

/// Dispatch law for the expression-level productions, as for the
/// statement-level ones: a token outside FIRST (and FOLLOW, where the
/// production is nullable) fails at once with that token and the exact
/// expected set.
pub proof fn lemma_first_set_errors_exprs(toks: Seq<TokenModel>, i: int, k: TokenKind)
    requires
        0 <= i < toks.len(),
        k == toks[i].kind,
    ensures
        !(is_first_expr(k)) ==> spec_expr(toks, i) == Err::<(SpecExpr, int), ParseErrModel>(
            unexpected(toks, i, exp_expr()),
        ),
        !(is_first_expr(k)) ==> spec_prod_expr(toks, i) == Err::<(SpecExpr, int), ParseErrModel>(
            unexpected(toks, i, exp_expr()),
        ),
        !(is_first_expr(k)) ==> spec_comp_expr(toks, i) == Err::<(SpecExpr, int), ParseErrModel>(
            unexpected(toks, i, exp_expr()),
        ),
        !(is_first_expr(k)) ==> spec_add_expr(toks, i) == Err::<(SpecExpr, int), ParseErrModel>(
            unexpected(toks, i, exp_expr()),
        ),
        !(is_first_expr(k)) ==> spec_mul_expr(toks, i) == Err::<(SpecExpr, int), ParseErrModel>(
            unexpected(toks, i, exp_expr()),
        ),
        !(is_first_base_expr(k) || is_unary_op(k)) ==> spec_unary_expr(toks, i) == Err::<(SpecExpr, int), ParseErrModel>(
            unexpected(toks, i, exp_expr()),
        ),
        !(is_unary_op(k)) ==> spec_unary_expr_head(toks, i) == Err::<(SpecExpr, int), ParseErrModel>(
            unexpected(toks, i, exp_unary_expr_head()),
        ),
        !(is_first_base_expr(k)) ==> spec_base_expr(toks, i) == Err::<(SpecExpr, int), ParseErrModel>(
            unexpected(toks, i, exp_base_expr()),
        ),
        !(k == TokenKind::Id) ==> spec_id_expr(toks, i) == Err::<(SpecExpr, int), ParseErrModel>(
            unexpected(toks, i, exp_id_expr()),
        ),
        !(k == TokenKind::LBracket || k == TokenKind::LParen || is_comp_op(k) || is_add_op(k) || is_mul_op(k) || k == TokenKind::RParen || k == TokenKind::Comma || k == TokenKind::Semi || k == TokenKind::RBracket || k == TokenKind::KwAnd || k == TokenKind::KwOr) ==> spec_id_expr_tail(toks, i) == Err::<(Option<SpecIdTail>, int), ParseErrModel>(
            unexpected(toks, i, exp_id_expr_tail()),
        ),
        !(k == TokenKind::LBracket) ==> spec_array_literal(toks, i) == Err::<(SpecExpr, int), ParseErrModel>(
            unexpected(toks, i, exp_array_literal()),
        ),
        !(is_base_type(k)) ==> spec_type_constructor(toks, i) == Err::<(SpecExpr, int), ParseErrModel>(
            unexpected(toks, i, exp_type_constructor()),
        ),
        !(k == TokenKind::LParen) ==> spec_func_call_args(toks, i) == Err::<(Seq<SpecExpr>, int), ParseErrModel>(
            unexpected(toks, i, exp_parameters()),
        ),
        !(is_first_expr(k)) ==> spec_expr_list(toks, i) == Err::<(Seq<SpecExpr>, int), ParseErrModel>(
            unexpected(toks, i, exp_expr()),
        ),
        !(k == TokenKind::Comma || k == TokenKind::RParen || k == TokenKind::RBracket) ==> spec_expr_list_tail(toks, i) == Err::<(Seq<SpecExpr>, int), ParseErrModel>(
            unexpected(toks, i, exp_expr_list_tail()),
        ),
        !(k == TokenKind::LParen) ==> spec_grouped_expr(toks, i) == Err::<(SpecExpr, int), ParseErrModel>(
            unexpected(toks, i, exp_parameters()),
        ),
        !(k == TokenKind::KwOr || k == TokenKind::RParen || k == TokenKind::Comma || k == TokenKind::Semi || k == TokenKind::RBracket) ==> spec_expr_tail(toks, i) == Err::<(Option<(TokenModel, SpecExpr)>, int), ParseErrModel>(
            unexpected(toks, i, exp_expr_tail()),
        ),
        !(k == TokenKind::KwAnd || k == TokenKind::RParen || k == TokenKind::Comma || k == TokenKind::Semi || k == TokenKind::RBracket || k == TokenKind::KwOr) ==> spec_prod_expr_tail(toks, i) == Err::<(Option<(TokenModel, SpecExpr)>, int), ParseErrModel>(
            unexpected(toks, i, exp_prod_expr_tail()),
        ),
        !(is_comp_op(k) || k == TokenKind::RParen || k == TokenKind::Comma || k == TokenKind::Semi || k == TokenKind::RBracket || k == TokenKind::KwAnd || k == TokenKind::KwOr) ==> spec_comp_expr_tail(toks, i) == Err::<(Option<(TokenModel, SpecExpr)>, int), ParseErrModel>(
            unexpected(toks, i, exp_comp_expr_tail()),
        ),
        !(is_add_op(k) || is_comp_op(k) || k == TokenKind::RParen || k == TokenKind::Comma || k == TokenKind::Semi || k == TokenKind::RBracket || k == TokenKind::KwAnd || k == TokenKind::KwOr) ==> spec_add_expr_tail(toks, i) == Err::<(Option<(TokenModel, SpecExpr)>, int), ParseErrModel>(
            unexpected(toks, i, exp_add_expr_tail()),
        ),
        !(is_mul_op(k) || is_add_op(k) || is_comp_op(k) || k == TokenKind::RParen || k == TokenKind::Comma || k == TokenKind::Semi || k == TokenKind::RBracket || k == TokenKind::KwAnd || k == TokenKind::KwOr) ==> spec_mul_expr_tail(toks, i) == Err::<(Option<(TokenModel, SpecExpr)>, int), ParseErrModel>(
            unexpected(toks, i, exp_mul_expr_tail()),
        ),
        !(is_mul_op(k)) ==> spec_mul_binops(toks, i) == Err::<(TokenModel, int), ParseErrModel>(
            unexpected(toks, i, exp_mul_binops()),
        ),
        !(is_add_op(k)) ==> spec_add_binops(toks, i) == Err::<(TokenModel, int), ParseErrModel>(
            unexpected(toks, i, exp_add_binops()),
        ),
        !(is_comp_op(k)) ==> spec_comp_binops(toks, i) == Err::<(TokenModel, int), ParseErrModel>(
            unexpected(toks, i, exp_comp_binops()),
        ),
        !(is_unary_op(k)) ==> spec_unary_ops(toks, i) == Err::<(TokenModel, int), ParseErrModel>(
            unexpected(toks, i, exp_unary_expr_head()),
        ),
        !(is_base_type(k)) ==> spec_base_types(toks, i) == Err::<(TokenModel, int), ParseErrModel>(
            unexpected(toks, i, exp_types()),
        ),
{
}

/// Every expected set is duplicate-free.
pub proof fn lemma_expected_sets_distinct()
    ensures
        exp_program().no_duplicates(),
        exp_global_stmt_list().no_duplicates(),
        exp_function().no_duplicates(),
        exp_entry_attr().no_duplicates(),
        exp_parameters().no_duplicates(),
        exp_param_list().no_duplicates(),
        exp_param_list_non_empty().no_duplicates(),
        exp_param_list_tail().no_duplicates(),
        exp_scoped_var_decl().no_duplicates(),
        exp_attrs().no_duplicates(),
        exp_compound_stmt().no_duplicates(),
        exp_stmt_list().no_duplicates(),
        exp_stmt().no_duplicates(),
        exp_var_decl().no_duplicates(),
        exp_var_decl_tail().no_duplicates(),
        exp_opt_assignment().no_duplicates(),
        exp_expr().no_duplicates(),
        exp_expr_tail().no_duplicates(),
        exp_prod_expr_tail().no_duplicates(),
        exp_comp_expr_tail().no_duplicates(),
        exp_add_expr_tail().no_duplicates(),
        exp_mul_expr_tail().no_duplicates(),
        exp_unary_expr_head().no_duplicates(),
        exp_base_expr().no_duplicates(),
        exp_id_expr().no_duplicates(),
        exp_id_expr_tail().no_duplicates(),
        exp_array_literal().no_duplicates(),
        exp_type_constructor().no_duplicates(),
        exp_expr_list_tail().no_duplicates(),
        exp_mul_binops().no_duplicates(),
        exp_add_binops().no_duplicates(),
        exp_comp_binops().no_duplicates(),
        exp_types().no_duplicates(),
        exp_opt_indexing().no_duplicates(),
{
    assert(exp_program().no_duplicates()) by { reveal(Seq::no_duplicates); }
    assert(exp_global_stmt_list().no_duplicates()) by { reveal(Seq::no_duplicates); }
    assert(exp_function().no_duplicates()) by { reveal(Seq::no_duplicates); }
    assert(exp_entry_attr().no_duplicates()) by { reveal(Seq::no_duplicates); }
    assert(exp_parameters().no_duplicates()) by { reveal(Seq::no_duplicates); }
    assert(exp_param_list().no_duplicates()) by { reveal(Seq::no_duplicates); }
    assert(exp_param_list_non_empty().no_duplicates()) by { reveal(Seq::no_duplicates); }
    assert(exp_param_list_tail().no_duplicates()) by { reveal(Seq::no_duplicates); }
    assert(exp_scoped_var_decl().no_duplicates()) by { reveal(Seq::no_duplicates); }
    assert(exp_attrs().no_duplicates()) by { reveal(Seq::no_duplicates); }
    assert(exp_compound_stmt().no_duplicates()) by { reveal(Seq::no_duplicates); }
    assert(exp_stmt_list().no_duplicates()) by { reveal(Seq::no_duplicates); }
    assert(exp_stmt().no_duplicates()) by { reveal(Seq::no_duplicates); }
    assert(exp_var_decl().no_duplicates()) by { reveal(Seq::no_duplicates); }
    assert(exp_var_decl_tail().no_duplicates()) by { reveal(Seq::no_duplicates); }
    assert(exp_opt_assignment().no_duplicates()) by { reveal(Seq::no_duplicates); }
    assert(exp_expr().no_duplicates()) by { reveal(Seq::no_duplicates); }
    assert(exp_expr_tail().no_duplicates()) by { reveal(Seq::no_duplicates); }
    assert(exp_prod_expr_tail().no_duplicates()) by { reveal(Seq::no_duplicates); }
    assert(exp_comp_expr_tail().no_duplicates()) by { reveal(Seq::no_duplicates); }
    assert(exp_add_expr_tail().no_duplicates()) by { reveal(Seq::no_duplicates); }
    assert(exp_mul_expr_tail().no_duplicates()) by { reveal(Seq::no_duplicates); }
    assert(exp_unary_expr_head().no_duplicates()) by { reveal(Seq::no_duplicates); }
    assert(exp_base_expr().no_duplicates()) by { reveal(Seq::no_duplicates); }
    assert(exp_id_expr().no_duplicates()) by { reveal(Seq::no_duplicates); }
    assert(exp_id_expr_tail().no_duplicates()) by { reveal(Seq::no_duplicates); }
    assert(exp_array_literal().no_duplicates()) by { reveal(Seq::no_duplicates); }
    assert(exp_type_constructor().no_duplicates()) by { reveal(Seq::no_duplicates); }
    assert(exp_expr_list_tail().no_duplicates()) by { reveal(Seq::no_duplicates); }
    assert(exp_mul_binops().no_duplicates()) by { reveal(Seq::no_duplicates); }
    assert(exp_add_binops().no_duplicates()) by { reveal(Seq::no_duplicates); }
    assert(exp_comp_binops().no_duplicates()) by { reveal(Seq::no_duplicates); }
    assert(exp_types().no_duplicates()) by { reveal(Seq::no_duplicates); }
    assert(exp_opt_indexing().no_duplicates()) by { reveal(Seq::no_duplicates); }
}

} // verus!
