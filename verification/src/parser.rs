use vstd::prelude::*;
use crate::token::{Token, TokenKind, TokenModel};
use crate::chars::{is_ws_char, is_digit_char, is_ident_start_char};
use crate::scan_model::{
    scan_spec, scan_spec_from, ident_end, number_end, keyword_or_id_kind, punct_at,
    lemma_ident_end_bounds, lemma_number_end_bounds,
};
use crate::ast::{Expr, Id, Literal, SpecExpr, exprs_view, lemma_exprs_view_is_map};
use crate::parse_model::{
    ParseErrModel, SpecIdTail, spec_match, is_first_expr, is_first_base_expr,
    is_first_function, is_first_scoped_var_decl, is_first_attr, is_first_stmt, is_comp_op, is_add_op, is_mul_op, is_unary_op, is_base_type, exp_program,
    exp_global_stmt_list, exp_function, exp_entry_attr, exp_parameters, exp_param_list,
    exp_param_list_non_empty, exp_param_list_tail, exp_scoped_var_decl, exp_attrs,
    exp_compound_stmt, exp_stmt_list, exp_stmt, exp_var_decl, exp_var_decl_tail,
    exp_opt_assignment, exp_expr, exp_expr_tail, exp_prod_expr_tail, exp_comp_expr_tail,
    exp_add_expr_tail, exp_mul_expr_tail, exp_unary_expr_head, exp_base_expr, exp_id_expr,
    exp_id_expr_tail, exp_array_literal, exp_type_constructor, exp_expr_list_tail, exp_mul_binops,
    exp_add_binops, exp_comp_binops, exp_types, exp_opt_indexing, spec_mul_binops,
    spec_add_binops, spec_comp_binops, spec_unary_ops, spec_base_types, spec_opt_indexing,
    spec_types, spec_stage_attr, spec_entry_attr, spec_attrs, combine_bin_expr, spec_expr,
    spec_expr_tail, spec_prod_expr, spec_prod_expr_tail, spec_comp_expr, spec_comp_expr_tail,
    spec_add_expr, spec_add_expr_tail, spec_mul_expr, spec_mul_expr_tail, spec_unary_expr,
    spec_unary_expr_head, spec_base_expr, spec_id_expr, spec_id_expr_tail, spec_array_literal,
    spec_type_constructor, spec_func_call_args, spec_expr_list, spec_expr_list_tail,
    spec_grouped_expr, spec_param_list, spec_param_list_non_empty, spec_param_list_tail,
    spec_parameters, spec_function_def, spec_opt_attr_list, spec_global_var_decl,
    spec_compound_stmt, spec_stmt_list, spec_stmt, spec_var_decl, spec_var_decl_keyword,
    spec_var_decl_tail, spec_opt_assignment, spec_function, spec_global_stmt,
    spec_global_stmt_list, spec_program, spec_parse,
};

verus! {

/// A parse failure: the offending token and the set of token kinds that would
/// have been accepted in its place.
#[derive(Debug)]
pub enum ParserError {
    UnexpectedToken(Token, Vec<TokenKind>),
}

impl View for ParserError {
    type V = ParseErrModel;

    open spec fn view(&self) -> ParseErrModel {
        match self {
            ParserError::UnexpectedToken(t, ks) => ParseErrModel { token: t@, expected: ks@ },
        }
    }
}

/// Whether `k` may begin an expression (executable form of `is_first_expr`).
pub fn kind_is_first_expr(k: TokenKind) -> (b: bool)
    ensures
        b == is_first_expr(k),
{
    match k {
        TokenKind::LParen => true,
        TokenKind::Minus => true,
        TokenKind::LBracket => true,
        TokenKind::Id => true,
        TokenKind::NumLit => true,
        TokenKind::KwFalse => true,
        TokenKind::KwNot => true,
        TokenKind::KwTrue => true,
        TokenKind::KwVec2 => true,
        TokenKind::KwVec3 => true,
        TokenKind::KwVec4 => true,
        TokenKind::KwVoid => true,
        _ => false,
    }
}

/// Whether `k` may begin a primary expression.
pub fn kind_is_first_base_expr(k: TokenKind) -> (b: bool)
    ensures
        b == is_first_base_expr(k),
{
    match k {
        TokenKind::LParen => true,
        TokenKind::LBracket => true,
        TokenKind::Id => true,
        TokenKind::NumLit => true,
        TokenKind::KwFalse => true,
        TokenKind::KwTrue => true,
        TokenKind::KwVec2 => true,
        TokenKind::KwVec3 => true,
        TokenKind::KwVec4 => true,
        TokenKind::KwVoid => true,
        _ => false,
    }
}

/// Whether `k` may begin a function.
pub fn kind_is_first_function(k: TokenKind) -> (b: bool)
    ensures
        b == is_first_function(k),
{
    match k {
        TokenKind::KwEntry => true,
        TokenKind::KwFn => true,
        TokenKind::KwFragment => true,
        TokenKind::KwVertex => true,
        _ => false,
    }
}

/// Whether `k` may begin a scoped variable declaration.
pub fn kind_is_first_scoped_var_decl(k: TokenKind) -> (b: bool)
    ensures
        b == is_first_scoped_var_decl(k),
{
    match k {
        TokenKind::KwIn => true,
        TokenKind::KwLet => true,
        TokenKind::KwLoc => true,
        TokenKind::KwOut => true,
        _ => false,
    }
}

/// Whether `k` may begin an attribute.
pub fn kind_is_first_attr(k: TokenKind) -> (b: bool)
    ensures
        b == is_first_attr(k),
{
    match k {
        TokenKind::KwIn => true,
        TokenKind::KwLoc => true,
        TokenKind::KwOut => true,
        _ => false,
    }
}

/// Whether `k` may begin a statement.
pub fn kind_is_first_stmt(k: TokenKind) -> (b: bool)
    ensures
        b == is_first_stmt(k),
{
    match k {
        TokenKind::Id => true,
        TokenKind::KwLet => true,
        TokenKind::KwReturn => true,
        _ => false,
    }
}

/// Whether `k` is a comparison-level operator.
pub fn kind_is_comp_op(k: TokenKind) -> (b: bool)
    ensures
        b == is_comp_op(k),
{
    match k {
        TokenKind::BangEq => true,
        TokenKind::Amp => true,
        TokenKind::Lt => true,
        TokenKind::Le => true,
        TokenKind::EqEq => true,
        TokenKind::Gt => true,
        TokenKind::Ge => true,
        TokenKind::Pipe => true,
        _ => false,
    }
}

/// Whether `k` is an additive-level operator.
pub fn kind_is_add_op(k: TokenKind) -> (b: bool)
    ensures
        b == is_add_op(k),
{
    match k {
        TokenKind::Plus => true,
        TokenKind::Minus => true,
        _ => false,
    }
}

/// Whether `k` is a multiplicative-level operator.
pub fn kind_is_mul_op(k: TokenKind) -> (b: bool)
    ensures
        b == is_mul_op(k),
{
    match k {
        TokenKind::Star => true,
        TokenKind::Slash => true,
        TokenKind::Percent => true,
        _ => false,
    }
}

/// Whether `k` is a unary operator.
pub fn kind_is_unary_op(k: TokenKind) -> (b: bool)
    ensures
        b == is_unary_op(k),
{
    match k {
        TokenKind::Minus => true,
        TokenKind::KwNot => true,
        _ => false,
    }
}

/// Whether `k` is a base type name.
pub fn kind_is_base_type(k: TokenKind) -> (b: bool)
    ensures
        b == is_base_type(k),
{
    match k {
        TokenKind::KwVec2 => true,
        TokenKind::KwVec3 => true,
        TokenKind::KwVec4 => true,
        TokenKind::KwVoid => true,
        _ => false,
    }
}

/// Whether `k` may directly follow an expression.
pub fn kind_is_follow_expr(k: TokenKind) -> (b: bool)
    ensures
        b == (k == TokenKind::RParen || k == TokenKind::Comma || k == TokenKind::Semi || k
            == TokenKind::RBracket),
{
    match k {
        TokenKind::RParen => true,
        TokenKind::Comma => true,
        TokenKind::Semi => true,
        TokenKind::RBracket => true,
        _ => false,
    }
}

fn expected_program() -> (v: Vec<TokenKind>)
    ensures
        v@ == exp_program(),
{
    let v = vec![
        TokenKind::KwEntry,
        TokenKind::KwFn,
        TokenKind::KwFragment,
        TokenKind::KwIn,
        TokenKind::KwLet,
        TokenKind::KwLoc,
        TokenKind::KwOut,
        TokenKind::KwVertex,
    ];
    proof {
        assert(v@ =~= exp_program());
    }
    v
}

fn expected_global_stmt_list() -> (v: Vec<TokenKind>)
    ensures
        v@ == exp_global_stmt_list(),
{
    let v = vec![
        TokenKind::Eof,
        TokenKind::KwEntry,
        TokenKind::KwFn,
        TokenKind::KwFragment,
        TokenKind::KwIn,
        TokenKind::KwLet,
        TokenKind::KwLoc,
        TokenKind::KwOut,
        TokenKind::KwVertex,
    ];
    proof {
        assert(v@ =~= exp_global_stmt_list());
    }
    v
}

fn expected_function() -> (v: Vec<TokenKind>)
    ensures
        v@ == exp_function(),
{
    let v = vec![
        TokenKind::KwEntry,
        TokenKind::KwFn,
        TokenKind::KwFragment,
        TokenKind::KwVertex,
    ];
    proof {
        assert(v@ =~= exp_function());
    }
    v
}

fn expected_entry_attr() -> (v: Vec<TokenKind>)
    ensures
        v@ == exp_entry_attr(),
{
    let v = vec![
        TokenKind::KwEntry,
        TokenKind::KwFn,
    ];
    proof {
        assert(v@ =~= exp_entry_attr());
    }
    v
}

fn expected_parameters() -> (v: Vec<TokenKind>)
    ensures
        v@ == exp_parameters(),
{
    let v = vec![
        TokenKind::LParen,
    ];
    proof {
        assert(v@ =~= exp_parameters());
    }
    v
}

fn expected_param_list() -> (v: Vec<TokenKind>)
    ensures
        v@ == exp_param_list(),
{
    let v = vec![
        TokenKind::RParen,
        TokenKind::Id,
    ];
    proof {
        assert(v@ =~= exp_param_list());
    }
    v
}

fn expected_param_list_non_empty() -> (v: Vec<TokenKind>)
    ensures
        v@ == exp_param_list_non_empty(),
{
    let v = vec![
        TokenKind::Id,
    ];
    proof {
        assert(v@ =~= exp_param_list_non_empty());
    }
    v
}

fn expected_param_list_tail() -> (v: Vec<TokenKind>)
    ensures
        v@ == exp_param_list_tail(),
{
    let v = vec![
        TokenKind::RParen,
        TokenKind::Comma,
    ];
    proof {
        assert(v@ =~= exp_param_list_tail());
    }
    v
}

fn expected_scoped_var_decl() -> (v: Vec<TokenKind>)
    ensures
        v@ == exp_scoped_var_decl(),
{
    let v = vec![
        TokenKind::KwIn,
        TokenKind::KwLet,
        TokenKind::KwLoc,
        TokenKind::KwOut,
    ];
    proof {
        assert(v@ =~= exp_scoped_var_decl());
    }
    v
}

fn expected_attrs() -> (v: Vec<TokenKind>)
    ensures
        v@ == exp_attrs(),
{
    let v = vec![
        TokenKind::KwIn,
        TokenKind::KwLoc,
        TokenKind::KwOut,
    ];
    proof {
        assert(v@ =~= exp_attrs());
    }
    v
}

fn expected_compound_stmt() -> (v: Vec<TokenKind>)
    ensures
        v@ == exp_compound_stmt(),
{
    let v = vec![
        TokenKind::LBrace,
    ];
    proof {
        assert(v@ =~= exp_compound_stmt());
    }
    v
}

fn expected_stmt_list() -> (v: Vec<TokenKind>)
    ensures
        v@ == exp_stmt_list(),
{
    let v = vec![
        TokenKind::RBrace,
        TokenKind::Id,
        TokenKind::KwLet,
        TokenKind::KwReturn,
    ];
    proof {
        assert(v@ =~= exp_stmt_list());
    }
    v
}

fn expected_stmt() -> (v: Vec<TokenKind>)
    ensures
        v@ == exp_stmt(),
{
    let v = vec![
        TokenKind::Id,
        TokenKind::KwLet,
        TokenKind::KwReturn,
    ];
    proof {
        assert(v@ =~= exp_stmt());
    }
    v
}

fn expected_var_decl() -> (v: Vec<TokenKind>)
    ensures
        v@ == exp_var_decl(),
{
    let v = vec![
        TokenKind::KwLet,
    ];
    proof {
        assert(v@ =~= exp_var_decl());
    }
    v
}

fn expected_var_decl_tail() -> (v: Vec<TokenKind>)
    ensures
        v@ == exp_var_decl_tail(),
{
    let v = vec![
        TokenKind::Colon,
    ];
    proof {
        assert(v@ =~= exp_var_decl_tail());
    }
    v
}

fn expected_opt_assignment() -> (v: Vec<TokenKind>)
    ensures
        v@ == exp_opt_assignment(),
{
    let v = vec![
        TokenKind::Semi,
        TokenKind::Assign,
    ];
    proof {
        assert(v@ =~= exp_opt_assignment());
    }
    v
}

fn expected_expr() -> (v: Vec<TokenKind>)
    ensures
        v@ == exp_expr(),
{
    let v = vec![
        TokenKind::LParen,
        TokenKind::Minus,
        TokenKind::LBracket,
        TokenKind::Id,
        TokenKind::NumLit,
        TokenKind::KwFalse,
        TokenKind::KwNot,
        TokenKind::KwTrue,
        TokenKind::KwVec2,
        TokenKind::KwVec3,
        TokenKind::KwVec4,
        TokenKind::KwVoid,
    ];
    proof {
        assert(v@ =~= exp_expr());
    }
    v
}

fn expected_expr_tail() -> (v: Vec<TokenKind>)
    ensures
        v@ == exp_expr_tail(),
{
    let v = vec![
        TokenKind::RParen,
        TokenKind::Comma,
        TokenKind::Semi,
        TokenKind::RBracket,
        TokenKind::KwOr,
    ];
    proof {
        assert(v@ =~= exp_expr_tail());
    }
    v
}

fn expected_prod_expr_tail() -> (v: Vec<TokenKind>)
    ensures
        v@ == exp_prod_expr_tail(),
{
    let v = vec![
        TokenKind::RParen,
        TokenKind::Comma,
        TokenKind::Semi,
        TokenKind::RBracket,
        TokenKind::KwAnd,
        TokenKind::KwOr,
    ];
    proof {
        assert(v@ =~= exp_prod_expr_tail());
    }
    v
}

fn expected_comp_expr_tail() -> (v: Vec<TokenKind>)
    ensures
        v@ == exp_comp_expr_tail(),
{
    let v = vec![
        TokenKind::BangEq,
        TokenKind::Amp,
        TokenKind::RParen,
        TokenKind::Comma,
        TokenKind::Semi,
        TokenKind::Lt,
        TokenKind::Le,
        TokenKind::EqEq,
        TokenKind::Gt,
        TokenKind::Ge,
        TokenKind::RBracket,
        TokenKind::Pipe,
        TokenKind::KwAnd,
        TokenKind::KwOr,
    ];
    proof {
        assert(v@ =~= exp_comp_expr_tail());
    }
    v
}

fn expected_add_expr_tail() -> (v: Vec<TokenKind>)
    ensures
        v@ == exp_add_expr_tail(),
{
    let v = vec![
        TokenKind::BangEq,
        TokenKind::Amp,
        TokenKind::RParen,
        TokenKind::Plus,
        TokenKind::Comma,
        TokenKind::Minus,
        TokenKind::Semi,
        TokenKind::Lt,
        TokenKind::Le,
        TokenKind::EqEq,
        TokenKind::Gt,
        TokenKind::Ge,
        TokenKind::RBracket,
        TokenKind::Pipe,
        TokenKind::KwAnd,
        TokenKind::KwOr,
    ];
    proof {
        assert(v@ =~= exp_add_expr_tail());
    }
    v
}

fn expected_mul_expr_tail() -> (v: Vec<TokenKind>)
    ensures
        v@ == exp_mul_expr_tail(),
{
    let v = vec![
        TokenKind::BangEq,
        TokenKind::Percent,
        TokenKind::Amp,
        TokenKind::RParen,
        TokenKind::Star,
        TokenKind::Plus,
        TokenKind::Comma,
        TokenKind::Minus,
        TokenKind::Slash,
        TokenKind::Semi,
        TokenKind::Lt,
        TokenKind::Le,
        TokenKind::EqEq,
        TokenKind::Gt,
        TokenKind::Ge,
        TokenKind::RBracket,
        TokenKind::Pipe,
        TokenKind::KwAnd,
        TokenKind::KwOr,
    ];
    proof {
        assert(v@ =~= exp_mul_expr_tail());
    }
    v
}

fn expected_unary_expr_head() -> (v: Vec<TokenKind>)
    ensures
        v@ == exp_unary_expr_head(),
{
    let v = vec![
        TokenKind::Minus,
        TokenKind::KwNot,
    ];
    proof {
        assert(v@ =~= exp_unary_expr_head());
    }
    v
}

fn expected_base_expr() -> (v: Vec<TokenKind>)
    ensures
        v@ == exp_base_expr(),
{
    let v = vec![
        TokenKind::LParen,
        TokenKind::LBracket,
        TokenKind::Id,
        TokenKind::NumLit,
        TokenKind::KwFalse,
        TokenKind::KwTrue,
        TokenKind::KwVec2,
        TokenKind::KwVec3,
        TokenKind::KwVec4,
        TokenKind::KwVoid,
    ];
    proof {
        assert(v@ =~= exp_base_expr());
    }
    v
}

fn expected_id_expr() -> (v: Vec<TokenKind>)
    ensures
        v@ == exp_id_expr(),
{
    let v = vec![
        TokenKind::Id,
    ];
    proof {
        assert(v@ =~= exp_id_expr());
    }
    v
}

fn expected_id_expr_tail() -> (v: Vec<TokenKind>)
    ensures
        v@ == exp_id_expr_tail(),
{
    let v = vec![
        TokenKind::BangEq,
        TokenKind::Percent,
        TokenKind::Amp,
        TokenKind::LParen,
        TokenKind::RParen,
        TokenKind::Star,
        TokenKind::Plus,
        TokenKind::Comma,
        TokenKind::Minus,
        TokenKind::Slash,
        TokenKind::Semi,
        TokenKind::Lt,
        TokenKind::Le,
        TokenKind::EqEq,
        TokenKind::Gt,
        TokenKind::Ge,
        TokenKind::LBracket,
        TokenKind::RBracket,
        TokenKind::Pipe,
        TokenKind::KwAnd,
        TokenKind::KwOr,
    ];
    proof {
        assert(v@ =~= exp_id_expr_tail());
    }
    v
}

fn expected_array_literal() -> (v: Vec<TokenKind>)
    ensures
        v@ == exp_array_literal(),
{
    let v = vec![
        TokenKind::LBracket,
    ];
    proof {
        assert(v@ =~= exp_array_literal());
    }
    v
}

fn expected_type_constructor() -> (v: Vec<TokenKind>)
    ensures
        v@ == exp_type_constructor(),
{
    let v = vec![
        TokenKind::KwVec2,
        TokenKind::KwVec3,
        TokenKind::KwVec4,
        TokenKind::KwVoid,
    ];
    proof {
        assert(v@ =~= exp_type_constructor());
    }
    v
}

fn expected_expr_list_tail() -> (v: Vec<TokenKind>)
    ensures
        v@ == exp_expr_list_tail(),
{
    let v = vec![
        TokenKind::RParen,
        TokenKind::Comma,
        TokenKind::RBracket,
    ];
    proof {
        assert(v@ =~= exp_expr_list_tail());
    }
    v
}

fn expected_mul_binops() -> (v: Vec<TokenKind>)
    ensures
        v@ == exp_mul_binops(),
{
    let v = vec![
        TokenKind::Percent,
        TokenKind::Star,
        TokenKind::Slash,
    ];
    proof {
        assert(v@ =~= exp_mul_binops());
    }
    v
}

fn expected_add_binops() -> (v: Vec<TokenKind>)
    ensures
        v@ == exp_add_binops(),
{
    let v = vec![
        TokenKind::Plus,
        TokenKind::Minus,
    ];
    proof {
        assert(v@ =~= exp_add_binops());
    }
    v
}

fn expected_comp_binops() -> (v: Vec<TokenKind>)
    ensures
        v@ == exp_comp_binops(),
{
    let v = vec![
        TokenKind::BangEq,
        TokenKind::Amp,
        TokenKind::Lt,
        TokenKind::Le,
        TokenKind::EqEq,
        TokenKind::Gt,
        TokenKind::Ge,
        TokenKind::Pipe,
    ];
    proof {
        assert(v@ =~= exp_comp_binops());
    }
    v
}

fn expected_types() -> (v: Vec<TokenKind>)
    ensures
        v@ == exp_types(),
{
    let v = vec![
        TokenKind::KwVec2,
        TokenKind::KwVec3,
        TokenKind::KwVec4,
        TokenKind::KwVoid,
    ];
    proof {
        assert(v@ =~= exp_types());
    }
    v
}

fn expected_opt_indexing() -> (v: Vec<TokenKind>)
    ensures
        v@ == exp_opt_indexing(),
{
    let v = vec![
        TokenKind::RParen,
        TokenKind::Comma,
        TokenKind::Semi,
        TokenKind::Assign,
        TokenKind::LBracket,
        TokenKind::LBrace,
    ];
    proof {
        assert(v@ =~= exp_opt_indexing());
    }
    v
}


/// The parser: holds the token list produced by the scanner and a single
/// forward-only cursor into it. Each nonterminal of the grammar is a method
/// that either consumes the tokens the nonterminal derives or fails on the
/// first mismatch.
pub struct Parser {
    pub scanner: Vec<Token>,
    pub current_ndx: usize,
}

/// A token stream the parser can run on: nonempty, ending in the synthetic
/// end-of-input token, with that token nowhere else.
pub open spec fn wf_tokens(toks: Seq<TokenModel>) -> bool {
    &&& toks.len() >= 1
    &&& toks.last().kind == TokenKind::Eof
    &&& forall|i: int| 0 <= i < toks.len() - 1 ==> toks[i].kind != TokenKind::Eof
}

impl Parser {
    /// The models of the tokens the parser runs on.
    pub open spec fn toks(self) -> Seq<TokenModel> {
        self.scanner@.map_values(|t: Token| t@)
    }

    /// The cursor: the position of the first unconsumed token.
    pub open spec fn pos(self) -> int {
        self.current_ndx as int
    }

    /// Well-formedness between productions: the token stream is well-formed
    /// and the cursor never leaves it.
    pub open spec fn wf(self) -> bool {
        wf_tokens(self.toks()) && self.pos() <= self.toks().len()
    }

    /// The parser may read the current token: it is well-formed and the
    /// cursor stands on a token (at worst the end-of-input token).
    pub open spec fn active(self) -> bool {
        wf_tokens(self.toks()) && self.pos() < self.toks().len()
    }

    /// A fresh parser over the given token list, with the cursor at the start.
    pub fn new(tokens: Vec<Token>) -> (p: Parser)
        ensures
            p.scanner == tokens,
            p.pos() == 0,
    {
        Parser { scanner: tokens, current_ndx: 0 }
    }

    /// The kind of the current token: what every production dispatches on.
    pub fn current(&self) -> (k: TokenKind)
        requires
            self.active(),
        ensures
            k == self.toks()[self.pos()].kind,
    {
        self.scanner[self.current_ndx].kind
    }

    /// A copy of the current token, as parse failures report it.
    pub fn current_token(&self) -> (t: Token)
        requires
            self.active(),
        ensures
            t@ == self.toks()[self.pos()],
    {
        (&self.scanner[self.current_ndx]).clone()
    }

    /// Consumes exactly one token of the requested kind and returns it, or
    /// fails without advancing, naming that kind as the expected set.
    pub fn match_kind(&mut self, kind: TokenKind) -> (r: Result<Token, ParserError>)
        requires
            old(self).active(),
        ensures
            final(self).scanner == old(self).scanner,
            match r {
                Ok(t) => spec_match(old(self).toks(), old(self).pos(), kind) == Ok::<
                    int,
                    ParseErrModel,
                >(final(self).pos()) && t@ == old(self).toks()[old(self).pos()] && final(self).pos() == old(self).pos() + 1 && final(self).wf() && (kind != TokenKind::Eof
                    ==> final(self).active()),
                Err(e) => spec_match(old(self).toks(), old(self).pos(), kind) == Err::<
                    int,
                    ParseErrModel,
                >(e@) && *final(self) == *old(self),
            },
    {
        if self.scanner[self.current_ndx].kind == kind {
            let prev = (&self.scanner[self.current_ndx]).clone();
            proof {
                assert(self.scanner@.len() <= usize::MAX) by {
                    broadcast use vstd::std_specs::vec::axiom_spec_len;

                    assert(vstd::std_specs::vec::spec_vec_len(&self.scanner)
                        == self.scanner@.len());
                }
            }
            self.current_ndx = self.current_ndx + 1;
            Ok(prev)
        } else {
            let t = self.current_token();
            let mut ks: Vec<TokenKind> = Vec::new();
            ks.push(kind);
            proof {
                assert(ks@ =~= seq![kind]);
            }
            Err(ParserError::UnexpectedToken(t, ks))
        }
    }

    /// `mul_binops -> '*' | '/' | '%'`: consumes and returns the operator.
    pub fn mul_binops(&mut self) -> (r: Result<Token, ParserError>)
        requires
            old(self).active(),
        ensures
            final(self).scanner == old(self).scanner,
            match r {
                Ok(t) => spec_mul_binops(old(self).toks(), old(self).pos()) == Ok::<
                    (TokenModel, int),
                    ParseErrModel,
                >((t@, final(self).pos())) && old(self).pos() < final(self).pos() && final(self).active(),
                Err(e) => spec_mul_binops(old(self).toks(), old(self).pos()) == Err::<
                    (TokenModel, int),
                    ParseErrModel,
                >(e@) && *final(self) == *old(self),
            },
    {
        let k = self.current();
        if k == TokenKind::Star {
            self.match_kind(TokenKind::Star)
        } else if k == TokenKind::Slash {
            self.match_kind(TokenKind::Slash)
        } else if k == TokenKind::Percent {
            self.match_kind(TokenKind::Percent)
        } else {
            Err(ParserError::UnexpectedToken(self.current_token(), expected_mul_binops()))
        }
    }

    /// `add_binops -> '+' | '-'`: consumes and returns the operator.
    pub fn add_binops(&mut self) -> (r: Result<Token, ParserError>)
        requires
            old(self).active(),
        ensures
            final(self).scanner == old(self).scanner,
            match r {
                Ok(t) => spec_add_binops(old(self).toks(), old(self).pos()) == Ok::<
                    (TokenModel, int),
                    ParseErrModel,
                >((t@, final(self).pos())) && old(self).pos() < final(self).pos() && final(self).active(),
                Err(e) => spec_add_binops(old(self).toks(), old(self).pos()) == Err::<
                    (TokenModel, int),
                    ParseErrModel,
                >(e@) && *final(self) == *old(self),
            },
    {
        let k = self.current();
        if k == TokenKind::Plus {
            self.match_kind(TokenKind::Plus)
        } else if k == TokenKind::Minus {
            self.match_kind(TokenKind::Minus)
        } else {
            Err(ParserError::UnexpectedToken(self.current_token(), expected_add_binops()))
        }
    }

    /// `comp_binops -> '!=' | '&' | '<=' | '<' | '>=' | '>' | '==' | '|'`:
    /// consumes and returns the operator.
    pub fn comp_binops(&mut self) -> (r: Result<Token, ParserError>)
        requires
            old(self).active(),
        ensures
            final(self).scanner == old(self).scanner,
            match r {
                Ok(t) => spec_comp_binops(old(self).toks(), old(self).pos()) == Ok::<
                    (TokenModel, int),
                    ParseErrModel,
                >((t@, final(self).pos())) && old(self).pos() < final(self).pos() && final(self).active(),
                Err(e) => spec_comp_binops(old(self).toks(), old(self).pos()) == Err::<
                    (TokenModel, int),
                    ParseErrModel,
                >(e@) && *final(self) == *old(self),
            },
    {
        let k = self.current();
        if k == TokenKind::BangEq {
            self.match_kind(TokenKind::BangEq)
        } else if k == TokenKind::Amp {
            self.match_kind(TokenKind::Amp)
        } else if k == TokenKind::Le {
            self.match_kind(TokenKind::Le)
        } else if k == TokenKind::Lt {
            self.match_kind(TokenKind::Lt)
        } else if k == TokenKind::Ge {
            self.match_kind(TokenKind::Ge)
        } else if k == TokenKind::Gt {
            self.match_kind(TokenKind::Gt)
        } else if k == TokenKind::EqEq {
            self.match_kind(TokenKind::EqEq)
        } else if k == TokenKind::Pipe {
            self.match_kind(TokenKind::Pipe)
        } else {
            Err(ParserError::UnexpectedToken(self.current_token(), expected_comp_binops()))
        }
    }

    /// `unary_ops -> '-' | 'not'`: consumes and returns the operator.
    pub fn unary_ops(&mut self) -> (r: Result<Token, ParserError>)
        requires
            old(self).active(),
        ensures
            final(self).scanner == old(self).scanner,
            match r {
                Ok(t) => spec_unary_ops(old(self).toks(), old(self).pos()) == Ok::<
                    (TokenModel, int),
                    ParseErrModel,
                >((t@, final(self).pos())) && old(self).pos() < final(self).pos() && final(self).active(),
                Err(e) => spec_unary_ops(old(self).toks(), old(self).pos()) == Err::<
                    (TokenModel, int),
                    ParseErrModel,
                >(e@) && *final(self) == *old(self),
            },
    {
        let k = self.current();
        if k == TokenKind::Minus {
            self.match_kind(TokenKind::Minus)
        } else if k == TokenKind::KwNot {
            self.match_kind(TokenKind::KwNot)
        } else {
            Err(ParserError::UnexpectedToken(self.current_token(), expected_unary_expr_head()))
        }
    }

    /// `base_types -> 'void' | 'vec2' | 'vec3' | 'vec4'`: consumes and
    /// returns the type-name token.
    pub fn base_types(&mut self) -> (r: Result<Token, ParserError>)
        requires
            old(self).active(),
        ensures
            final(self).scanner == old(self).scanner,
            match r {
                Ok(t) => spec_base_types(old(self).toks(), old(self).pos()) == Ok::<
                    (TokenModel, int),
                    ParseErrModel,
                >((t@, final(self).pos())) && old(self).pos() < final(self).pos() && final(self).active(),
                Err(e) => spec_base_types(old(self).toks(), old(self).pos()) == Err::<
                    (TokenModel, int),
                    ParseErrModel,
                >(e@) && *final(self) == *old(self),
            },
    {
        let k = self.current();
        if k == TokenKind::KwVoid {
            self.match_kind(TokenKind::KwVoid)
        } else if k == TokenKind::KwVec2 {
            self.match_kind(TokenKind::KwVec2)
        } else if k == TokenKind::KwVec3 {
            self.match_kind(TokenKind::KwVec3)
        } else if k == TokenKind::KwVec4 {
            self.match_kind(TokenKind::KwVec4)
        } else {
            Err(ParserError::UnexpectedToken(self.current_token(), expected_types()))
        }
    }

    /// `opt_indexing -> '[' NUM_LIT ']' | eps`: an optional fixed-size array
    /// suffix.
    pub fn opt_indexing(&mut self) -> (r: Result<(), ParserError>)
        requires
            old(self).active(),
        ensures
            final(self).scanner == old(self).scanner,
            match r {
                Ok(()) => spec_opt_indexing(old(self).toks(), old(self).pos()) == Ok::<
                    int,
                    ParseErrModel,
                >(final(self).pos()) && old(self).pos() <= final(self).pos() && final(self).active(),
                Err(e) => spec_opt_indexing(old(self).toks(), old(self).pos()) == Err::<
                    int,
                    ParseErrModel,
                >(e@) && old(self).pos()
                    <= final(self).pos() < old(self).toks().len() && final(self).toks()[final(self).pos()]
                    == e@.token && (!(old(self).toks()[old(self).pos()].kind == TokenKind::LBracket || old(self).toks()[old(self).pos()].kind == TokenKind::RParen || old(self).toks()[old(self).pos()].kind == TokenKind::Comma || old(self).toks()[old(self).pos()].kind == TokenKind::Semi || old(self).toks()[old(self).pos()].kind == TokenKind::Assign || old(self).toks()[old(self).pos()].kind == TokenKind::LBrace)
                    ==> *final(self) == *old(self)),
            },
    {
        let k = self.current();
        if k == TokenKind::LBracket {
            match self.match_kind(TokenKind::LBracket) {
                Ok(_t) => {},
                Err(e) => { return Err(e); },
            }
            match self.match_kind(TokenKind::NumLit) {
                Ok(_t) => {},
                Err(e) => { return Err(e); },
            }
            match self.match_kind(TokenKind::RBracket) {
                Ok(_t) => {},
                Err(e) => { return Err(e); },
            }
            Ok(())
        } else if k == TokenKind::RParen || k == TokenKind::Comma || k == TokenKind::Semi || k
            == TokenKind::Assign || k == TokenKind::LBrace {
            Ok(())
        } else {
            Err(ParserError::UnexpectedToken(self.current_token(), expected_opt_indexing()))
        }
    }

    /// `types -> base_types opt_indexing`: a base type with an optional
    /// fixed-size array suffix.
    pub fn types(&mut self) -> (r: Result<(), ParserError>)
        requires
            old(self).active(),
        ensures
            final(self).scanner == old(self).scanner,
            match r {
                Ok(()) => spec_types(old(self).toks(), old(self).pos()) == Ok::<
                    int,
                    ParseErrModel,
                >(final(self).pos()) && old(self).pos() < final(self).pos() && final(self).active(),
                Err(e) => spec_types(old(self).toks(), old(self).pos()) == Err::<
                    int,
                    ParseErrModel,
                >(e@) && old(self).pos()
                    <= final(self).pos() < old(self).toks().len() && final(self).toks()[final(self).pos()]
                    == e@.token && (!(is_base_type(old(self).toks()[old(self).pos()].kind))
                    ==> *final(self) == *old(self)),
            },
    {
        let k = self.current();
        if kind_is_base_type(k) {
            match self.base_types() {
                Ok(_t) => {},
                Err(e) => { return Err(e); },
            }
            match self.opt_indexing() {
                Ok(()) => {},
                Err(e) => { return Err(e); },
            }
            Ok(())
        } else {
            Err(ParserError::UnexpectedToken(self.current_token(), expected_types()))
        }
    }

    /// `stage_attr -> 'vertex' | 'fragment' | eps`: an optional pipeline-stage
    /// attribute; absent when `entry` or `fn` follows directly.
    pub fn stage_attr(&mut self) -> (r: Result<(), ParserError>)
        requires
            old(self).active(),
        ensures
            final(self).scanner == old(self).scanner,
            match r {
                Ok(()) => spec_stage_attr(old(self).toks(), old(self).pos()) == Ok::<
                    int,
                    ParseErrModel,
                >(final(self).pos()) && old(self).pos() <= final(self).pos() && final(self).active(),
                Err(e) => spec_stage_attr(old(self).toks(), old(self).pos()) == Err::<
                    int,
                    ParseErrModel,
                >(e@) && *final(self) == *old(self),
            },
    {
        let k = self.current();
        if k == TokenKind::KwVertex {
            match self.match_kind(TokenKind::KwVertex) {
                Ok(_t) => Ok(()),
                Err(e) => Err(e),
            }
        } else if k == TokenKind::KwFragment {
            match self.match_kind(TokenKind::KwFragment) {
                Ok(_t) => Ok(()),
                Err(e) => Err(e),
            }
        } else if k == TokenKind::KwEntry || k == TokenKind::KwFn {
            Ok(())
        } else {
            Err(ParserError::UnexpectedToken(self.current_token(), expected_function()))
        }
    }

    /// `entry_attr -> 'entry' | eps`: an optional entry-point attribute;
    /// absent when `fn` follows directly.
    pub fn entry_attr(&mut self) -> (r: Result<(), ParserError>)
        requires
            old(self).active(),
        ensures
            final(self).scanner == old(self).scanner,
            match r {
                Ok(()) => spec_entry_attr(old(self).toks(), old(self).pos()) == Ok::<
                    int,
                    ParseErrModel,
                >(final(self).pos()) && old(self).pos() <= final(self).pos() && final(self).active(),
                Err(e) => spec_entry_attr(old(self).toks(), old(self).pos()) == Err::<
                    int,
                    ParseErrModel,
                >(e@) && *final(self) == *old(self),
            },
    {
        let k = self.current();
        if k == TokenKind::KwEntry {
            match self.match_kind(TokenKind::KwEntry) {
                Ok(_t) => Ok(()),
                Err(e) => Err(e),
            }
        } else if k == TokenKind::KwFn {
            Ok(())
        } else {
            Err(ParserError::UnexpectedToken(self.current_token(), expected_entry_attr()))
        }
    }

    /// `attrs -> 'out' | 'in' | 'loc' '(' NUM_LIT ')'`: one attribute of a
    /// scoped variable declaration.
    pub fn attrs(&mut self) -> (r: Result<(), ParserError>)
        requires
            old(self).active(),
        ensures
            final(self).scanner == old(self).scanner,
            match r {
                Ok(()) => spec_attrs(old(self).toks(), old(self).pos()) == Ok::<
                    int,
                    ParseErrModel,
                >(final(self).pos()) && old(self).pos() < final(self).pos() && final(self).active(),
                Err(e) => spec_attrs(old(self).toks(), old(self).pos()) == Err::<
                    int,
                    ParseErrModel,
                >(e@) && old(self).pos()
                    <= final(self).pos() < old(self).toks().len() && final(self).toks()[final(self).pos()]
                    == e@.token && (!(is_first_attr(old(self).toks()[old(self).pos()].kind))
                    ==> *final(self) == *old(self)),
            },
    {
        let k = self.current();
        if k == TokenKind::KwOut {
            match self.match_kind(TokenKind::KwOut) {
                Ok(_t) => Ok(()),
                Err(e) => Err(e),
            }
        } else if k == TokenKind::KwIn {
            match self.match_kind(TokenKind::KwIn) {
                Ok(_t) => Ok(()),
                Err(e) => Err(e),
            }
        } else if k == TokenKind::KwLoc {
            match self.match_kind(TokenKind::KwLoc) {
                Ok(_t) => {},
                Err(e) => { return Err(e); },
            }
            match self.match_kind(TokenKind::LParen) {
                Ok(_t) => {},
                Err(e) => { return Err(e); },
            }
            match self.match_kind(TokenKind::NumLit) {
                Ok(_t) => {},
                Err(e) => { return Err(e); },
            }
            match self.match_kind(TokenKind::RParen) {
                Ok(_t) => {},
                Err(e) => { return Err(e); },
            }
            Ok(())
        } else {
            Err(ParserError::UnexpectedToken(self.current_token(), expected_attrs()))
        }
    }
}


/// The tail that may follow an identifier in an expression: a bracketed index
/// or a parenthesized argument list.
pub enum IdExprTail {
    ArrayIndex(Expr),
    FuncCall(Vec<Expr>),
}

/// The model of an optional identifier tail.
pub open spec fn id_tail_view(o: Option<IdExprTail>) -> Option<SpecIdTail> {
    match o {
        None => None,
        Some(IdExprTail::ArrayIndex(e)) => Some(SpecIdTail::ArrayIndex(e@)),
        Some(IdExprTail::FuncCall(v)) => Some(SpecIdTail::FuncCall(exprs_view(v))),
    }
}

/// The model of an optional operator/right-operand pair.
pub open spec fn bin_tail_view(o: Option<(Token, Expr)>) -> Option<(TokenModel, SpecExpr)> {
    match o {
        None => None,
        Some((t, e)) => Some((t@, e@)),
    }
}

/// Folds an optional operator/right-operand pair onto a left operand: the left
/// operand alone when there is none, a binary node otherwise.
pub fn bin_expr_unwrap_or(lhs: Expr, bin_expr: Option<(Token, Expr)>) -> (r: Expr)
    ensures
        r@ == combine_bin_expr(lhs@, bin_tail_view(bin_expr)),
{
    if bin_expr.is_none() {
        lhs
    } else {
        let (op, rhs) = bin_expr.unwrap();
        Expr::BinaryExpr(op, Box::new(lhs), Box::new(rhs))
    }
}

impl Parser {
    /// `expr -> prod_expr expr_tail`: the `or` level, lowest binding power.
    pub fn expr(&mut self) -> (r: Result<Expr, ParserError>)
        requires
            old(self).active(),
        ensures
            final(self).scanner == old(self).scanner,
            match r {
                Ok(e) => spec_expr(old(self).toks(), old(self).pos()) == Ok::<
                    (SpecExpr, int),
                    ParseErrModel,
                >((e@, final(self).pos())) && old(self).pos() < final(self).pos() && final(
                    self).active(),
                Err(err) => spec_expr(old(self).toks(), old(self).pos()) == Err::<
                    (SpecExpr, int),
                    ParseErrModel,
                >(err@) && old(self).pos()
                    <= final(self).pos() < old(self).toks().len() && final(self).toks()[final(self).pos()]
                    == err@.token && (!(is_first_expr(old(self).toks()[old(self).pos()].kind))
                    ==> *final(self) == *old(self)),
            },
        decreases self.toks().len() - self.pos(), 11int,
    {
        let k = self.current();
        if kind_is_first_expr(k) {
            let lhs = match self.prod_expr() {
                Ok(e) => e,
                Err(e) => { return Err(e); },
            };
            let bin_expr = match self.expr_tail() {
                Ok(t) => t,
                Err(e) => { return Err(e); },
            };
            Ok(bin_expr_unwrap_or(lhs, bin_expr))
        } else {
            Err(ParserError::UnexpectedToken(self.current_token(), expected_expr()))
        }
    }

    /// `expr_tail -> 'or' expr | eps`: the optional `or` continuation.
    pub fn expr_tail(&mut self) -> (r: Result<Option<(Token, Expr)>, ParserError>)
        requires
            old(self).active(),
        ensures
            final(self).scanner == old(self).scanner,
            match r {
                Ok(t) => spec_expr_tail(old(self).toks(), old(self).pos()) == Ok::<
                    (Option<(TokenModel, SpecExpr)>, int),
                    ParseErrModel,
                >((bin_tail_view(t), final(self).pos())) && old(self).pos() <= final(
                    self).pos() && final(self).active(),
                Err(e) => spec_expr_tail(old(self).toks(), old(self).pos()) == Err::<
                    (Option<(TokenModel, SpecExpr)>, int),
                    ParseErrModel,
                >(e@) && old(self).pos()
                    <= final(self).pos() < old(self).toks().len() && final(self).toks()[final(self).pos()]
                    == e@.token && (!(old(self).toks()[old(self).pos()].kind == TokenKind::KwOr || old(self).toks()[old(self).pos()].kind == TokenKind::RParen || old(self).toks()[old(self).pos()].kind == TokenKind::Comma || old(self).toks()[old(self).pos()].kind == TokenKind::Semi || old(self).toks()[old(self).pos()].kind == TokenKind::RBracket)
                    ==> *final(self) == *old(self)),
            },
        decreases self.toks().len() - self.pos(), 1int,
    {
        let k = self.current();
        if k == TokenKind::KwOr {
            let op = match self.match_kind(TokenKind::KwOr) {
                Ok(t) => t,
                Err(e) => { return Err(e); },
            };
            let rhs = match self.expr() {
                Ok(e) => e,
                Err(e) => { return Err(e); },
            };
            Ok(Some((op, rhs)))
        } else if kind_is_follow_expr(k) {
            Ok(None)
        } else {
            Err(ParserError::UnexpectedToken(self.current_token(), expected_expr_tail()))
        }
    }

    /// `prod_expr -> comp_expr prod_expr_tail`: the `and` level.
    pub fn prod_expr(&mut self) -> (r: Result<Expr, ParserError>)
        requires
            old(self).active(),
        ensures
            final(self).scanner == old(self).scanner,
            match r {
                Ok(e) => spec_prod_expr(old(self).toks(), old(self).pos()) == Ok::<
                    (SpecExpr, int),
                    ParseErrModel,
                >((e@, final(self).pos())) && old(self).pos() < final(self).pos() && final(
                    self).active(),
                Err(err) => spec_prod_expr(old(self).toks(), old(self).pos()) == Err::<
                    (SpecExpr, int),
                    ParseErrModel,
                >(err@) && old(self).pos()
                    <= final(self).pos() < old(self).toks().len() && final(self).toks()[final(self).pos()]
                    == err@.token && (!(is_first_expr(old(self).toks()[old(self).pos()].kind))
                    ==> *final(self) == *old(self)),
            },
        decreases self.toks().len() - self.pos(), 10int,
    {
        let k = self.current();
        if kind_is_first_expr(k) {
            let lhs = match self.comp_expr() {
                Ok(e) => e,
                Err(e) => { return Err(e); },
            };
            let bin_expr = match self.prod_expr_tail() {
                Ok(t) => t,
                Err(e) => { return Err(e); },
            };
            Ok(bin_expr_unwrap_or(lhs, bin_expr))
        } else {
            Err(ParserError::UnexpectedToken(self.current_token(), expected_expr()))
        }
    }

    /// `prod_expr_tail -> 'and' prod_expr | eps`: the optional `and` continuation.
    pub fn prod_expr_tail(&mut self) -> (r: Result<Option<(Token, Expr)>, ParserError>)
        requires
            old(self).active(),
        ensures
            final(self).scanner == old(self).scanner,
            match r {
                Ok(t) => spec_prod_expr_tail(old(self).toks(), old(self).pos()) == Ok::<
                    (Option<(TokenModel, SpecExpr)>, int),
                    ParseErrModel,
                >((bin_tail_view(t), final(self).pos())) && old(self).pos() <= final(
                    self).pos() && final(self).active(),
                Err(e) => spec_prod_expr_tail(old(self).toks(), old(self).pos()) == Err::<
                    (Option<(TokenModel, SpecExpr)>, int),
                    ParseErrModel,
                >(e@) && old(self).pos()
                    <= final(self).pos() < old(self).toks().len() && final(self).toks()[final(self).pos()]
                    == e@.token && (!(old(self).toks()[old(self).pos()].kind == TokenKind::KwAnd || old(self).toks()[old(self).pos()].kind == TokenKind::KwOr || old(self).toks()[old(self).pos()].kind == TokenKind::RParen || old(self).toks()[old(self).pos()].kind == TokenKind::Comma || old(self).toks()[old(self).pos()].kind == TokenKind::Semi || old(self).toks()[old(self).pos()].kind == TokenKind::RBracket)
                    ==> *final(self) == *old(self)),
            },
        decreases self.toks().len() - self.pos(), 1int,
    {
        let k = self.current();
        if k == TokenKind::KwAnd {
            let op = match self.match_kind(TokenKind::KwAnd) {
                Ok(t) => t,
                Err(e) => { return Err(e); },
            };
            let rhs = match self.prod_expr() {
                Ok(e) => e,
                Err(e) => { return Err(e); },
            };
            Ok(Some((op, rhs)))
        } else if kind_is_follow_expr(k) || k == TokenKind::KwOr {
            Ok(None)
        } else {
            Err(ParserError::UnexpectedToken(self.current_token(), expected_prod_expr_tail()))
        }
    }

    /// `comp_expr -> add_expr comp_expr_tail`: the comparison level.
    pub fn comp_expr(&mut self) -> (r: Result<Expr, ParserError>)
        requires
            old(self).active(),
        ensures
            final(self).scanner == old(self).scanner,
            match r {
                Ok(e) => spec_comp_expr(old(self).toks(), old(self).pos()) == Ok::<
                    (SpecExpr, int),
                    ParseErrModel,
                >((e@, final(self).pos())) && old(self).pos() < final(self).pos() && final(
                    self).active(),
                Err(err) => spec_comp_expr(old(self).toks(), old(self).pos()) == Err::<
                    (SpecExpr, int),
                    ParseErrModel,
                >(err@) && old(self).pos()
                    <= final(self).pos() < old(self).toks().len() && final(self).toks()[final(self).pos()]
                    == err@.token && (!(is_first_expr(old(self).toks()[old(self).pos()].kind))
                    ==> *final(self) == *old(self)),
            },
        decreases self.toks().len() - self.pos(), 9int,
    {
        let k = self.current();
        if kind_is_first_expr(k) {
            let lhs = match self.add_expr() {
                Ok(e) => e,
                Err(e) => { return Err(e); },
            };
            let bin_expr = match self.comp_expr_tail() {
                Ok(t) => t,
                Err(e) => { return Err(e); },
            };
            Ok(bin_expr_unwrap_or(lhs, bin_expr))
        } else {
            Err(ParserError::UnexpectedToken(self.current_token(), expected_expr()))
        }
    }

    /// `comp_expr_tail -> comp_binops comp_expr | eps`: the optional comparison
    /// continuation.
    pub fn comp_expr_tail(&mut self) -> (r: Result<Option<(Token, Expr)>, ParserError>)
        requires
            old(self).active(),
        ensures
            final(self).scanner == old(self).scanner,
            match r {
                Ok(t) => spec_comp_expr_tail(old(self).toks(), old(self).pos()) == Ok::<
                    (Option<(TokenModel, SpecExpr)>, int),
                    ParseErrModel,
                >((bin_tail_view(t), final(self).pos())) && old(self).pos() <= final(
                    self).pos() && final(self).active(),
                Err(e) => spec_comp_expr_tail(old(self).toks(), old(self).pos()) == Err::<
                    (Option<(TokenModel, SpecExpr)>, int),
                    ParseErrModel,
                >(e@) && old(self).pos()
                    <= final(self).pos() < old(self).toks().len() && final(self).toks()[final(self).pos()]
                    == e@.token && (!(is_comp_op(old(self).toks()[old(self).pos()].kind) || old(self).toks()[old(self).pos()].kind == TokenKind::KwAnd || old(self).toks()[old(self).pos()].kind == TokenKind::KwOr || old(self).toks()[old(self).pos()].kind == TokenKind::RParen || old(self).toks()[old(self).pos()].kind == TokenKind::Comma || old(self).toks()[old(self).pos()].kind == TokenKind::Semi || old(self).toks()[old(self).pos()].kind == TokenKind::RBracket)
                    ==> *final(self) == *old(self)),
            },
        decreases self.toks().len() - self.pos(), 1int,
    {
        let k = self.current();
        if kind_is_comp_op(k) {
            let op = match self.comp_binops() {
                Ok(t) => t,
                Err(e) => { return Err(e); },
            };
            let rhs = match self.comp_expr() {
                Ok(e) => e,
                Err(e) => { return Err(e); },
            };
            Ok(Some((op, rhs)))
        } else if kind_is_follow_expr(k) || k == TokenKind::KwAnd || k == TokenKind::KwOr {
            Ok(None)
        } else {
            Err(ParserError::UnexpectedToken(self.current_token(), expected_comp_expr_tail()))
        }
    }

    /// `add_expr -> mul_expr add_expr_tail`: the additive level.
    pub fn add_expr(&mut self) -> (r: Result<Expr, ParserError>)
        requires
            old(self).active(),
        ensures
            final(self).scanner == old(self).scanner,
            match r {
                Ok(e) => spec_add_expr(old(self).toks(), old(self).pos()) == Ok::<
                    (SpecExpr, int),
                    ParseErrModel,
                >((e@, final(self).pos())) && old(self).pos() < final(self).pos() && final(
                    self).active(),
                Err(err) => spec_add_expr(old(self).toks(), old(self).pos()) == Err::<
                    (SpecExpr, int),
                    ParseErrModel,
                >(err@) && old(self).pos()
                    <= final(self).pos() < old(self).toks().len() && final(self).toks()[final(self).pos()]
                    == err@.token && (!(is_first_expr(old(self).toks()[old(self).pos()].kind))
                    ==> *final(self) == *old(self)),
            },
        decreases self.toks().len() - self.pos(), 8int,
    {
        let k = self.current();
        if kind_is_first_expr(k) {
            let lhs = match self.mul_expr() {
                Ok(e) => e,
                Err(e) => { return Err(e); },
            };
            let bin_expr = match self.add_expr_tail() {
                Ok(t) => t,
                Err(e) => { return Err(e); },
            };
            Ok(bin_expr_unwrap_or(lhs, bin_expr))
        } else {
            Err(ParserError::UnexpectedToken(self.current_token(), expected_expr()))
        }
    }

    /// `add_expr_tail -> add_binops add_expr | eps`: the optional additive
    /// continuation.
    pub fn add_expr_tail(&mut self) -> (r: Result<Option<(Token, Expr)>, ParserError>)
        requires
            old(self).active(),
        ensures
            final(self).scanner == old(self).scanner,
            match r {
                Ok(t) => spec_add_expr_tail(old(self).toks(), old(self).pos()) == Ok::<
                    (Option<(TokenModel, SpecExpr)>, int),
                    ParseErrModel,
                >((bin_tail_view(t), final(self).pos())) && old(self).pos() <= final(
                    self).pos() && final(self).active(),
                Err(e) => spec_add_expr_tail(old(self).toks(), old(self).pos()) == Err::<
                    (Option<(TokenModel, SpecExpr)>, int),
                    ParseErrModel,
                >(e@) && old(self).pos()
                    <= final(self).pos() < old(self).toks().len() && final(self).toks()[final(self).pos()]
                    == e@.token && (!(is_add_op(old(self).toks()[old(self).pos()].kind) || is_comp_op(old(self).toks()[old(self).pos()].kind) || old(self).toks()[old(self).pos()].kind == TokenKind::KwAnd || old(self).toks()[old(self).pos()].kind == TokenKind::KwOr || old(self).toks()[old(self).pos()].kind == TokenKind::RParen || old(self).toks()[old(self).pos()].kind == TokenKind::Comma || old(self).toks()[old(self).pos()].kind == TokenKind::Semi || old(self).toks()[old(self).pos()].kind == TokenKind::RBracket)
                    ==> *final(self) == *old(self)),
            },
        decreases self.toks().len() - self.pos(), 1int,
    {
        let k = self.current();
        if kind_is_add_op(k) {
            let op = match self.add_binops() {
                Ok(t) => t,
                Err(e) => { return Err(e); },
            };
            let rhs = match self.add_expr() {
                Ok(e) => e,
                Err(e) => { return Err(e); },
            };
            Ok(Some((op, rhs)))
        } else if kind_is_comp_op(k) || kind_is_follow_expr(k) || k == TokenKind::KwAnd || k == TokenKind::KwOr {
            Ok(None)
        } else {
            Err(ParserError::UnexpectedToken(self.current_token(), expected_add_expr_tail()))
        }
    }

    /// `mul_expr -> unary_expr mul_expr_tail`: the multiplicative level.
    pub fn mul_expr(&mut self) -> (r: Result<Expr, ParserError>)
        requires
            old(self).active(),
        ensures
            final(self).scanner == old(self).scanner,
            match r {
                Ok(e) => spec_mul_expr(old(self).toks(), old(self).pos()) == Ok::<
                    (SpecExpr, int),
                    ParseErrModel,
                >((e@, final(self).pos())) && old(self).pos() < final(self).pos() && final(
                    self).active(),
                Err(err) => spec_mul_expr(old(self).toks(), old(self).pos()) == Err::<
                    (SpecExpr, int),
                    ParseErrModel,
                >(err@) && old(self).pos()
                    <= final(self).pos() < old(self).toks().len() && final(self).toks()[final(self).pos()]
                    == err@.token && (!(is_first_expr(old(self).toks()[old(self).pos()].kind))
                    ==> *final(self) == *old(self)),
            },
        decreases self.toks().len() - self.pos(), 7int,
    {
        let k = self.current();
        if kind_is_first_expr(k) {
            let lhs = match self.unary_expr() {
                Ok(e) => e,
                Err(e) => { return Err(e); },
            };
            let bin_expr = match self.mul_expr_tail() {
                Ok(t) => t,
                Err(e) => { return Err(e); },
            };
            Ok(bin_expr_unwrap_or(lhs, bin_expr))
        } else {
            Err(ParserError::UnexpectedToken(self.current_token(), expected_expr()))
        }
    }

    /// `mul_expr_tail -> mul_binops mul_expr | eps`: the optional multiplicative
    /// continuation.
    pub fn mul_expr_tail(&mut self) -> (r: Result<Option<(Token, Expr)>, ParserError>)
        requires
            old(self).active(),
        ensures
            final(self).scanner == old(self).scanner,
            match r {
                Ok(t) => spec_mul_expr_tail(old(self).toks(), old(self).pos()) == Ok::<
                    (Option<(TokenModel, SpecExpr)>, int),
                    ParseErrModel,
                >((bin_tail_view(t), final(self).pos())) && old(self).pos() <= final(
                    self).pos() && final(self).active(),
                Err(e) => spec_mul_expr_tail(old(self).toks(), old(self).pos()) == Err::<
                    (Option<(TokenModel, SpecExpr)>, int),
                    ParseErrModel,
                >(e@) && old(self).pos()
                    <= final(self).pos() < old(self).toks().len() && final(self).toks()[final(self).pos()]
                    == e@.token && (!(is_mul_op(old(self).toks()[old(self).pos()].kind) || is_add_op(old(self).toks()[old(self).pos()].kind) || is_comp_op(old(self).toks()[old(self).pos()].kind) || old(self).toks()[old(self).pos()].kind == TokenKind::KwAnd || old(self).toks()[old(self).pos()].kind == TokenKind::KwOr || old(self).toks()[old(self).pos()].kind == TokenKind::RParen || old(self).toks()[old(self).pos()].kind == TokenKind::Comma || old(self).toks()[old(self).pos()].kind == TokenKind::Semi || old(self).toks()[old(self).pos()].kind == TokenKind::RBracket)
                    ==> *final(self) == *old(self)),
            },
        decreases self.toks().len() - self.pos(), 1int,
    {
        let k = self.current();
        if kind_is_mul_op(k) {
            let op = match self.mul_binops() {
                Ok(t) => t,
                Err(e) => { return Err(e); },
            };
            let rhs = match self.mul_expr() {
                Ok(e) => e,
                Err(e) => { return Err(e); },
            };
            Ok(Some((op, rhs)))
        } else if kind_is_comp_op(k) || kind_is_add_op(k) || kind_is_follow_expr(k) || k == TokenKind::KwAnd || k == TokenKind::KwOr {
            Ok(None)
        } else {
            Err(ParserError::UnexpectedToken(self.current_token(), expected_mul_expr_tail()))
        }
    }
    /// `unary_expr -> base_expr | unary_expr_head`: a primary expression or a
    /// prefix operator applied to another unary expression.
    pub fn unary_expr(&mut self) -> (r: Result<Expr, ParserError>)
        requires
            old(self).active(),
        ensures
            final(self).scanner == old(self).scanner,
            match r {
                Ok(e) => spec_unary_expr(old(self).toks(), old(self).pos()) == Ok::<
                    (SpecExpr, int),
                    ParseErrModel,
                >((e@, final(self).pos())) && old(self).pos() < final(self).pos() && final(
                    self).active(),
                Err(err) => spec_unary_expr(old(self).toks(), old(self).pos()) == Err::<
                    (SpecExpr, int),
                    ParseErrModel,
                >(err@) && old(self).pos()
                    <= final(self).pos() < old(self).toks().len() && final(self).toks()[final(self).pos()]
                    == err@.token && (!(is_first_base_expr(old(self).toks()[old(self).pos()].kind) || is_unary_op(old(self).toks()[old(self).pos()].kind))
                    ==> *final(self) == *old(self)),
            },
        decreases self.toks().len() - self.pos(), 6int,
    {
        let k = self.current();
        if kind_is_first_base_expr(k) {
            self.base_expr()
        } else if kind_is_unary_op(k) {
            self.unary_expr_head()
        } else {
            Err(ParserError::UnexpectedToken(self.current_token(), expected_expr()))
        }
    }

    /// `unary_expr_head -> unary_ops unary_expr`: a prefix operator and its
    /// operand.
    pub fn unary_expr_head(&mut self) -> (r: Result<Expr, ParserError>)
        requires
            old(self).active(),
        ensures
            final(self).scanner == old(self).scanner,
            match r {
                Ok(e) => spec_unary_expr_head(old(self).toks(), old(self).pos()) == Ok::<
                    (SpecExpr, int),
                    ParseErrModel,
                >((e@, final(self).pos())) && old(self).pos() < final(self).pos() && final(
                    self).active(),
                Err(err) => spec_unary_expr_head(old(self).toks(), old(self).pos()) == Err::<
                    (SpecExpr, int),
                    ParseErrModel,
                >(err@) && old(self).pos()
                    <= final(self).pos() < old(self).toks().len() && final(self).toks()[final(self).pos()]
                    == err@.token && (!(is_unary_op(old(self).toks()[old(self).pos()].kind))
                    ==> *final(self) == *old(self)),
            },
        decreases self.toks().len() - self.pos(), 5int,
    {
        let k = self.current();
        if kind_is_unary_op(k) {
            let op = match self.unary_ops() {
                Ok(t) => t,
                Err(e) => { return Err(e); },
            };
            let expr = match self.unary_expr() {
                Ok(e) => e,
                Err(e) => { return Err(e); },
            };
            Ok(Expr::UnaryExpr(op, Box::new(expr)))
        } else {
            Err(ParserError::UnexpectedToken(self.current_token(), expected_unary_expr_head()))
        }
    }

    /// `base_expr -> type_constructor | id_expr | array_literal | NUM_LIT |
    /// 'true' | 'false' | grouped_expr`: a primary expression.
    pub fn base_expr(&mut self) -> (r: Result<Expr, ParserError>)
        requires
            old(self).active(),
        ensures
            final(self).scanner == old(self).scanner,
            match r {
                Ok(e) => spec_base_expr(old(self).toks(), old(self).pos()) == Ok::<
                    (SpecExpr, int),
                    ParseErrModel,
                >((e@, final(self).pos())) && old(self).pos() < final(self).pos() && final(
                    self).active(),
                Err(err) => spec_base_expr(old(self).toks(), old(self).pos()) == Err::<
                    (SpecExpr, int),
                    ParseErrModel,
                >(err@) && old(self).pos()
                    <= final(self).pos() < old(self).toks().len() && final(self).toks()[final(self).pos()]
                    == err@.token && (!(is_first_base_expr(old(self).toks()[old(self).pos()].kind))
                    ==> *final(self) == *old(self)),
            },
        decreases self.toks().len() - self.pos(), 4int,
    {
        let k = self.current();
        if kind_is_base_type(k) {
            self.type_constructor()
        } else if k == TokenKind::Id {
            self.id_expr()
        } else if k == TokenKind::LBracket {
            self.array_literal()
        } else if k == TokenKind::NumLit {
            match self.match_kind(TokenKind::NumLit) {
                Ok(token) => Ok(Expr::LiteralExpr(Literal::Number(token))),
                Err(e) => Err(e),
            }
        } else if k == TokenKind::KwTrue {
            match self.match_kind(TokenKind::KwTrue) {
                Ok(token) => Ok(Expr::LiteralExpr(Literal::Boolean(token, true))),
                Err(e) => Err(e),
            }
        } else if k == TokenKind::KwFalse {
            match self.match_kind(TokenKind::KwFalse) {
                Ok(token) => Ok(Expr::LiteralExpr(Literal::Boolean(token, false))),
                Err(e) => Err(e),
            }
        } else if k == TokenKind::LParen {
            self.grouped_expr()
        } else {
            Err(ParserError::UnexpectedToken(self.current_token(), expected_base_expr()))
        }
    }

    /// `id_expr -> ID id_expr_tail`: a bare reference, an array lookup, or a
    /// call, depending on the single tail that follows the identifier.
    #[verifier::rlimit(100)]
    #[verifier::spinoff_prover]
    pub fn id_expr(&mut self) -> (r: Result<Expr, ParserError>)
        requires
            old(self).active(),
        ensures
            final(self).scanner == old(self).scanner,
            match r {
                Ok(e) => spec_id_expr(old(self).toks(), old(self).pos()) == Ok::<
                    (SpecExpr, int),
                    ParseErrModel,
                >((e@, final(self).pos())) && old(self).pos() < final(self).pos() && final(
                    self).active(),
                Err(err) => spec_id_expr(old(self).toks(), old(self).pos()) == Err::<
                    (SpecExpr, int),
                    ParseErrModel,
                >(err@) && old(self).pos()
                    <= final(self).pos() < old(self).toks().len() && final(self).toks()[final(self).pos()]
                    == err@.token && (!(old(self).toks()[old(self).pos()].kind == TokenKind::Id)
                    ==> *final(self) == *old(self)),
            },
        decreases self.toks().len() - self.pos(), 3int,
    {
        let k = self.current();
        if k == TokenKind::Id {
            let token = match self.match_kind(TokenKind::Id) {
                Ok(t) => t,
                Err(e) => { return Err(e); },
            };
            let tail_wrapped = match self.id_expr_tail() {
                Ok(t) => t,
                Err(e) => { return Err(e); },
            };
            let id = Id::new(token);
            let ghost toks = old(self).toks();
            let ghost i = old(self).pos();
            match tail_wrapped {
                None => {
                    let e = Expr::IdExpr(id);
                    proof {
                        assert(e@ == SpecExpr::Id(toks[i]));
                        assert(spec_id_expr(toks, i) == Ok::<(SpecExpr, int), ParseErrModel>(
                            (e@, self.pos()),
                        ));
                    }
                    Ok(e)
                },
                Some(IdExprTail::ArrayIndex(index)) => {
                    let inner = Expr::IdExpr(id);
                    proof {
                        assert(inner@ == SpecExpr::Id(toks[i]));
                    }
                    let ghost inner_model = inner@;
                    let ghost index_model = index@;
                    let e = Expr::ArrayLookupExpr(Box::new(inner), Box::new(index));
                    proof {
                        assert(e@ == SpecExpr::ArrayLookup(
                            Box::new(inner_model),
                            Box::new(index_model),
                        ));
                        assert(spec_id_expr(toks, i) == Ok::<(SpecExpr, int), ParseErrModel>(
                            (e@, self.pos()),
                        ));
                    }
                    Ok(e)
                },
                Some(IdExprTail::FuncCall(arg_list)) => {
                    let ghost args = exprs_view(arg_list);
                    let e = Expr::FunctionExpr(id, arg_list);
                    proof {
                        assert(e@ == SpecExpr::Call(toks[i], args));
                        assert(spec_id_expr(toks, i) == Ok::<(SpecExpr, int), ParseErrModel>(
                            (e@, self.pos()),
                        ));
                    }
                    Ok(e)
                },
            }
        } else {
            Err(ParserError::UnexpectedToken(self.current_token(), expected_id_expr()))
        }
    }

    /// `id_expr_tail -> '[' expr ']' | func_call_args | eps`: the single
    /// optional tail after an identifier.
    #[verifier::rlimit(100)]
    #[verifier::spinoff_prover]
    pub fn id_expr_tail(&mut self) -> (r: Result<Option<IdExprTail>, ParserError>)
        requires
            old(self).active(),
        ensures
            final(self).scanner == old(self).scanner,
            match r {
                Ok(t) => spec_id_expr_tail(old(self).toks(), old(self).pos()) == Ok::<
                    (Option<SpecIdTail>, int),
                    ParseErrModel,
                >((id_tail_view(t), final(self).pos())) && old(self).pos() <= final(
                    self).pos() && final(self).active(),
                Err(e) => spec_id_expr_tail(old(self).toks(), old(self).pos()) == Err::<
                    (Option<SpecIdTail>, int),
                    ParseErrModel,
                >(e@) && old(self).pos()
                    <= final(self).pos() < old(self).toks().len() && final(self).toks()[final(self).pos()]
                    == e@.token && (!(old(self).toks()[old(self).pos()].kind == TokenKind::LBracket || old(self).toks()[old(self).pos()].kind == TokenKind::LParen || is_comp_op(old(self).toks()[old(self).pos()].kind) || is_add_op(old(self).toks()[old(self).pos()].kind) || is_mul_op(old(self).toks()[old(self).pos()].kind) || old(self).toks()[old(self).pos()].kind == TokenKind::KwAnd || old(self).toks()[old(self).pos()].kind == TokenKind::KwOr || old(self).toks()[old(self).pos()].kind == TokenKind::RParen || old(self).toks()[old(self).pos()].kind == TokenKind::Comma || old(self).toks()[old(self).pos()].kind == TokenKind::Semi || old(self).toks()[old(self).pos()].kind == TokenKind::RBracket)
                    ==> *final(self) == *old(self)),
            },
        decreases self.toks().len() - self.pos(), 2int,
    {
        let k = self.current();
        if k == TokenKind::LBracket {
            match self.match_kind(TokenKind::LBracket) {
                Ok(_t) => {},
                Err(e) => { return Err(e); },
            }
            let index = match self.expr() {
                Ok(e) => e,
                Err(e) => { return Err(e); },
            };
            match self.match_kind(TokenKind::RBracket) {
                Ok(_t) => {},
                Err(e) => { return Err(e); },
            }
            Ok(Some(IdExprTail::ArrayIndex(index)))
        } else if k == TokenKind::LParen {
            let arg_list = match self.func_call_args() {
                Ok(v) => v,
                Err(e) => { return Err(e); },
            };
            Ok(Some(IdExprTail::FuncCall(arg_list)))
        } else if kind_is_comp_op(k) || kind_is_add_op(k) || kind_is_mul_op(k)
            || kind_is_follow_expr(k) || k == TokenKind::KwAnd || k == TokenKind::KwOr {
            Ok(None)
        } else {
            Err(ParserError::UnexpectedToken(self.current_token(), expected_id_expr_tail()))
        }
    }

    /// `array_literal -> '[' expr_list ']'`: a bracketed list of expressions.
    pub fn array_literal(&mut self) -> (r: Result<Expr, ParserError>)
        requires
            old(self).active(),
        ensures
            final(self).scanner == old(self).scanner,
            match r {
                Ok(e) => spec_array_literal(old(self).toks(), old(self).pos()) == Ok::<
                    (SpecExpr, int),
                    ParseErrModel,
                >((e@, final(self).pos())) && old(self).pos() < final(self).pos() && final(
                    self).active(),
                Err(err) => spec_array_literal(old(self).toks(), old(self).pos()) == Err::<
                    (SpecExpr, int),
                    ParseErrModel,
                >(err@) && old(self).pos()
                    <= final(self).pos() < old(self).toks().len() && final(self).toks()[final(self).pos()]
                    == err@.token && (!(old(self).toks()[old(self).pos()].kind == TokenKind::LBracket)
                    ==> *final(self) == *old(self)),
            },
        decreases self.toks().len() - self.pos(), 3int,
    {
        let k = self.current();
        if k == TokenKind::LBracket {
            match self.match_kind(TokenKind::LBracket) {
                Ok(_t) => {},
                Err(e) => { return Err(e); },
            }
            let values = match self.expr_list() {
                Ok(v) => v,
                Err(e) => { return Err(e); },
            };
            match self.match_kind(TokenKind::RBracket) {
                Ok(_t) => {},
                Err(e) => { return Err(e); },
            }
            Ok(Expr::LiteralExpr(Literal::Array(values)))
        } else {
            Err(ParserError::UnexpectedToken(self.current_token(), expected_array_literal()))
        }
    }

    /// `type_constructor -> base_types func_call_args`: a typed literal or
    /// conversion, built as a call whose callee is the type name.
    #[verifier::rlimit(100)]
    #[verifier::spinoff_prover]
    pub fn type_constructor(&mut self) -> (r: Result<Expr, ParserError>)
        requires
            old(self).active(),
        ensures
            final(self).scanner == old(self).scanner,
            match r {
                Ok(e) => spec_type_constructor(old(self).toks(), old(self).pos()) == Ok::<
                    (SpecExpr, int),
                    ParseErrModel,
                >((e@, final(self).pos())) && old(self).pos() < final(self).pos() && final(
                    self).active(),
                Err(err) => spec_type_constructor(old(self).toks(), old(self).pos()) == Err::<
                    (SpecExpr, int),
                    ParseErrModel,
                >(err@) && old(self).pos()
                    <= final(self).pos() < old(self).toks().len() && final(self).toks()[final(self).pos()]
                    == err@.token && (!(is_base_type(old(self).toks()[old(self).pos()].kind))
                    ==> *final(self) == *old(self)),
            },
        decreases self.toks().len() - self.pos(), 3int,
    {
        let k = self.current();
        if kind_is_base_type(k) {
            let func_name = match self.base_types() {
                Ok(t) => t,
                Err(e) => { return Err(e); },
            };
            let arg_list = match self.func_call_args() {
                Ok(v) => v,
                Err(e) => { return Err(e); },
            };
            Ok(Expr::FunctionExpr(Id::new(func_name), arg_list))
        } else {
            Err(ParserError::UnexpectedToken(self.current_token(), expected_type_constructor()))
        }
    }

    /// `func_call_args -> '(' expr_list ')'`: a parenthesized argument list.
    pub fn func_call_args(&mut self) -> (r: Result<Vec<Expr>, ParserError>)
        requires
            old(self).active(),
        ensures
            final(self).scanner == old(self).scanner,
            match r {
                Ok(v) => spec_func_call_args(old(self).toks(), old(self).pos()) == Ok::<
                    (Seq<SpecExpr>, int),
                    ParseErrModel,
                >((exprs_view(v), final(self).pos())) && old(self).pos() < final(
                    self).pos() && final(self).active(),
                Err(e) => spec_func_call_args(old(self).toks(), old(self).pos()) == Err::<
                    (Seq<SpecExpr>, int),
                    ParseErrModel,
                >(e@) && old(self).pos()
                    <= final(self).pos() < old(self).toks().len() && final(self).toks()[final(self).pos()]
                    == e@.token && (!(old(self).toks()[old(self).pos()].kind == TokenKind::LParen)
                    ==> *final(self) == *old(self)),
            },
        decreases self.toks().len() - self.pos(), 1int,
    {
        let k = self.current();
        if k == TokenKind::LParen {
            match self.match_kind(TokenKind::LParen) {
                Ok(_t) => {},
                Err(e) => { return Err(e); },
            }
            let arg_list = match self.expr_list() {
                Ok(v) => v,
                Err(e) => { return Err(e); },
            };
            match self.match_kind(TokenKind::RParen) {
                Ok(_t) => {},
                Err(e) => { return Err(e); },
            }
            Ok(arg_list)
        } else {
            Err(ParserError::UnexpectedToken(self.current_token(), expected_parameters()))
        }
    }

    /// `expr_list -> expr expr_list_tail`: one or more comma-separated
    /// expressions.
    pub fn expr_list(&mut self) -> (r: Result<Vec<Expr>, ParserError>)
        requires
            old(self).active(),
        ensures
            final(self).scanner == old(self).scanner,
            match r {
                Ok(v) => spec_expr_list(old(self).toks(), old(self).pos()) == Ok::<
                    (Seq<SpecExpr>, int),
                    ParseErrModel,
                >((exprs_view(v), final(self).pos())) && old(self).pos() < final(
                    self).pos() && final(self).active(),
                Err(e) => spec_expr_list(old(self).toks(), old(self).pos()) == Err::<
                    (Seq<SpecExpr>, int),
                    ParseErrModel,
                >(e@) && old(self).pos()
                    <= final(self).pos() < old(self).toks().len() && final(self).toks()[final(self).pos()]
                    == e@.token && (!(is_first_expr(old(self).toks()[old(self).pos()].kind))
                    ==> *final(self) == *old(self)),
            },
        decreases self.toks().len() - self.pos(), 12int,
    {
        let k = self.current();
        if kind_is_first_expr(k) {
            let head = match self.expr() {
                Ok(e) => e,
                Err(e) => { return Err(e); },
            };
            let mut tail = match self.expr_list_tail() {
                Ok(v) => v,
                Err(e) => { return Err(e); },
            };
            proof {
                lemma_exprs_view_is_map(tail);
            }
            let ghost tail0 = tail@;
            let ghost head0 = head@;
            tail.insert(0, head);
            proof {
                lemma_exprs_view_is_map(tail);
                assert(tail@.map_values(|x: Expr| crate::ast::expr_view(x)) =~= seq![head0]
                    + tail0.map_values(|x: Expr| crate::ast::expr_view(x)));
            }
            Ok(tail)
        } else {
            Err(ParserError::UnexpectedToken(self.current_token(), expected_expr()))
        }
    }

    /// `expr_list_tail -> ',' expr_list | eps`: the optional continuation of
    /// an expression list.
    pub fn expr_list_tail(&mut self) -> (r: Result<Vec<Expr>, ParserError>)
        requires
            old(self).active(),
        ensures
            final(self).scanner == old(self).scanner,
            match r {
                Ok(v) => spec_expr_list_tail(old(self).toks(), old(self).pos()) == Ok::<
                    (Seq<SpecExpr>, int),
                    ParseErrModel,
                >((exprs_view(v), final(self).pos())) && old(self).pos() <= final(
                    self).pos() && final(self).active(),
                Err(e) => spec_expr_list_tail(old(self).toks(), old(self).pos()) == Err::<
                    (Seq<SpecExpr>, int),
                    ParseErrModel,
                >(e@) && old(self).pos()
                    <= final(self).pos() < old(self).toks().len() && final(self).toks()[final(self).pos()]
                    == e@.token && (!(old(self).toks()[old(self).pos()].kind == TokenKind::Comma || old(self).toks()[old(self).pos()].kind == TokenKind::RParen || old(self).toks()[old(self).pos()].kind == TokenKind::RBracket)
                    ==> *final(self) == *old(self)),
            },
        decreases self.toks().len() - self.pos(), 1int,
    {
        let k = self.current();
        if k == TokenKind::Comma {
            match self.match_kind(TokenKind::Comma) {
                Ok(_t) => {},
                Err(e) => { return Err(e); },
            }
            let list = match self.expr_list() {
                Ok(v) => v,
                Err(e) => { return Err(e); },
            };
            Ok(list)
        } else if k == TokenKind::RParen || k == TokenKind::RBracket {
            let v: Vec<Expr> = Vec::new();
            proof {
                lemma_exprs_view_is_map(v);
                assert(exprs_view(v) =~= Seq::<SpecExpr>::empty());
            }
            Ok(v)
        } else {
            Err(ParserError::UnexpectedToken(self.current_token(), expected_expr_list_tail()))
        }
    }

    /// `grouped_expr -> '(' expr ')'`: a parenthesized sub-expression.
    pub fn grouped_expr(&mut self) -> (r: Result<Expr, ParserError>)
        requires
            old(self).active(),
        ensures
            final(self).scanner == old(self).scanner,
            match r {
                Ok(e) => spec_grouped_expr(old(self).toks(), old(self).pos()) == Ok::<
                    (SpecExpr, int),
                    ParseErrModel,
                >((e@, final(self).pos())) && old(self).pos() < final(self).pos() && final(
                    self).active(),
                Err(err) => spec_grouped_expr(old(self).toks(), old(self).pos()) == Err::<
                    (SpecExpr, int),
                    ParseErrModel,
                >(err@) && old(self).pos()
                    <= final(self).pos() < old(self).toks().len() && final(self).toks()[final(self).pos()]
                    == err@.token && (!(old(self).toks()[old(self).pos()].kind == TokenKind::LParen)
                    ==> *final(self) == *old(self)),
            },
        decreases self.toks().len() - self.pos(), 3int,
    {
        let k = self.current();
        if k == TokenKind::LParen {
            match self.match_kind(TokenKind::LParen) {
                Ok(_t) => {},
                Err(e) => { return Err(e); },
            }
            let expr = match self.expr() {
                Ok(e) => e,
                Err(e) => { return Err(e); },
            };
            match self.match_kind(TokenKind::RParen) {
                Ok(_t) => {},
                Err(e) => { return Err(e); },
            }
            Ok(expr)
        } else {
            Err(ParserError::UnexpectedToken(self.current_token(), expected_parameters()))
        }
    }
}

impl Parser {
    /// `param_list -> param_list_non_empty | eps`: a possibly-empty parameter
    /// list.
    pub fn param_list(&mut self) -> (r: Result<(), ParserError>)
        requires
            old(self).active(),
        ensures
            final(self).scanner == old(self).scanner,
            match r {
                Ok(()) => spec_param_list(old(self).toks(), old(self).pos()) == Ok::<
                    int,
                    ParseErrModel,
                >(final(self).pos()) && old(self).pos() <= final(self).pos() && final(
                    self).active(),
                Err(e) => spec_param_list(old(self).toks(), old(self).pos()) == Err::<
                    int,
                    ParseErrModel,
                >(e@) && old(self).pos()
                    <= final(self).pos() < old(self).toks().len() && final(self).toks()[final(self).pos()]
                    == e@.token && (!(old(self).toks()[old(self).pos()].kind == TokenKind::Id || old(self).toks()[old(self).pos()].kind == TokenKind::RParen)
                    ==> *final(self) == *old(self)),
            },
    {
        let k = self.current();
        if k == TokenKind::Id {
        match self.param_list_non_empty() {
            Ok(_x) => {},
            Err(e) => { return Err(e); },
        }
            Ok(())
        } else if k == TokenKind::RParen {
            Ok(())
        } else {
            Err(ParserError::UnexpectedToken(self.current_token(), expected_param_list()))
        }
    }

    /// `param_list_non_empty -> ID ':' types param_list_tail`: one parameter and
    /// what follows it.
    pub fn param_list_non_empty(&mut self) -> (r: Result<(), ParserError>)
        requires
            old(self).active(),
        ensures
            final(self).scanner == old(self).scanner,
            match r {
                Ok(()) => spec_param_list_non_empty(old(self).toks(), old(self).pos()) == Ok::<
                    int,
                    ParseErrModel,
                >(final(self).pos()) && old(self).pos() < final(self).pos() && final(
                    self).active(),
                Err(e) => spec_param_list_non_empty(old(self).toks(), old(self).pos()) == Err::<
                    int,
                    ParseErrModel,
                >(e@) && old(self).pos()
                    <= final(self).pos() < old(self).toks().len() && final(self).toks()[final(self).pos()]
                    == e@.token && (!(old(self).toks()[old(self).pos()].kind == TokenKind::Id)
                    ==> *final(self) == *old(self)),
            },
        decreases self.toks().len() - self.pos(),
    {
        let k = self.current();
        if k == TokenKind::Id {
        match self.match_kind(TokenKind::Id) {
            Ok(_x) => {},
            Err(e) => { return Err(e); },
        }
        match self.match_kind(TokenKind::Colon) {
            Ok(_x) => {},
            Err(e) => { return Err(e); },
        }
        match self.types() {
            Ok(_x) => {},
            Err(e) => { return Err(e); },
        }
        match self.param_list_tail() {
            Ok(_x) => {},
            Err(e) => { return Err(e); },
        }
            Ok(())
        } else {
            Err(ParserError::UnexpectedToken(self.current_token(), expected_param_list_non_empty()))
        }
    }

    /// `param_list_tail -> ',' param_list_non_empty | eps`: the optional
    /// continuation of a parameter list.
    pub fn param_list_tail(&mut self) -> (r: Result<(), ParserError>)
        requires
            old(self).active(),
        ensures
            final(self).scanner == old(self).scanner,
            match r {
                Ok(()) => spec_param_list_tail(old(self).toks(), old(self).pos()) == Ok::<
                    int,
                    ParseErrModel,
                >(final(self).pos()) && old(self).pos() <= final(self).pos() && final(
                    self).active(),
                Err(e) => spec_param_list_tail(old(self).toks(), old(self).pos()) == Err::<
                    int,
                    ParseErrModel,
                >(e@) && old(self).pos()
                    <= final(self).pos() < old(self).toks().len() && final(self).toks()[final(self).pos()]
                    == e@.token && (!(old(self).toks()[old(self).pos()].kind == TokenKind::Comma || old(self).toks()[old(self).pos()].kind == TokenKind::RParen)
                    ==> *final(self) == *old(self)),
            },
        decreases self.toks().len() - self.pos(),
    {
        let k = self.current();
        if k == TokenKind::Comma {
        match self.match_kind(TokenKind::Comma) {
            Ok(_x) => {},
            Err(e) => { return Err(e); },
        }
        match self.param_list_non_empty() {
            Ok(_x) => {},
            Err(e) => { return Err(e); },
        }
            Ok(())
        } else if k == TokenKind::RParen {
            Ok(())
        } else {
            Err(ParserError::UnexpectedToken(self.current_token(), expected_param_list_tail()))
        }
    }

    /// `parameters -> '(' param_list ')'`.
    pub fn parameters(&mut self) -> (r: Result<(), ParserError>)
        requires
            old(self).active(),
        ensures
            final(self).scanner == old(self).scanner,
            match r {
                Ok(()) => spec_parameters(old(self).toks(), old(self).pos()) == Ok::<
                    int,
                    ParseErrModel,
                >(final(self).pos()) && old(self).pos() < final(self).pos() && final(
                    self).active(),
                Err(e) => spec_parameters(old(self).toks(), old(self).pos()) == Err::<
                    int,
                    ParseErrModel,
                >(e@) && old(self).pos()
                    <= final(self).pos() < old(self).toks().len() && final(self).toks()[final(self).pos()]
                    == e@.token && (!(old(self).toks()[old(self).pos()].kind == TokenKind::LParen)
                    ==> *final(self) == *old(self)),
            },
    {
        let k = self.current();
        if k == TokenKind::LParen {
        match self.match_kind(TokenKind::LParen) {
            Ok(_x) => {},
            Err(e) => { return Err(e); },
        }
        match self.param_list() {
            Ok(_x) => {},
            Err(e) => { return Err(e); },
        }
        match self.match_kind(TokenKind::RParen) {
            Ok(_x) => {},
            Err(e) => { return Err(e); },
        }
            Ok(())
        } else {
            Err(ParserError::UnexpectedToken(self.current_token(), expected_parameters()))
        }
    }

    /// `function_def -> stage_attr entry_attr 'fn' ID parameters '->' types`:
    /// the header of a function.
    pub fn function_def(&mut self) -> (r: Result<(), ParserError>)
        requires
            old(self).active(),
        ensures
            final(self).scanner == old(self).scanner,
            match r {
                Ok(()) => spec_function_def(old(self).toks(), old(self).pos()) == Ok::<
                    int,
                    ParseErrModel,
                >(final(self).pos()) && old(self).pos() < final(self).pos() && final(
                    self).active(),
                Err(e) => spec_function_def(old(self).toks(), old(self).pos()) == Err::<
                    int,
                    ParseErrModel,
                >(e@) && old(self).pos()
                    <= final(self).pos() < old(self).toks().len() && final(self).toks()[final(self).pos()]
                    == e@.token && (!(is_first_function(old(self).toks()[old(self).pos()].kind))
                    ==> *final(self) == *old(self)),
            },
    {
        let k = self.current();
        if kind_is_first_function(k) {
        match self.stage_attr() {
            Ok(_x) => {},
            Err(e) => { return Err(e); },
        }
        match self.entry_attr() {
            Ok(_x) => {},
            Err(e) => { return Err(e); },
        }
        match self.match_kind(TokenKind::KwFn) {
            Ok(_x) => {},
            Err(e) => { return Err(e); },
        }
        match self.match_kind(TokenKind::Id) {
            Ok(_x) => {},
            Err(e) => { return Err(e); },
        }
        match self.parameters() {
            Ok(_x) => {},
            Err(e) => { return Err(e); },
        }
        match self.match_kind(TokenKind::Arrow) {
            Ok(_x) => {},
            Err(e) => { return Err(e); },
        }
        match self.types() {
            Ok(_x) => {},
            Err(e) => { return Err(e); },
        }
            Ok(())
        } else {
            Err(ParserError::UnexpectedToken(self.current_token(), expected_function()))
        }
    }

    /// `opt_attr_list -> attrs opt_attr_list | eps`: a repeatable attribute
    /// prefix before the binding keyword.
    pub fn opt_attr_list(&mut self) -> (r: Result<(), ParserError>)
        requires
            old(self).active(),
        ensures
            final(self).scanner == old(self).scanner,
            match r {
                Ok(()) => spec_opt_attr_list(old(self).toks(), old(self).pos()) == Ok::<
                    int,
                    ParseErrModel,
                >(final(self).pos()) && old(self).pos() <= final(self).pos() && final(
                    self).active(),
                Err(e) => spec_opt_attr_list(old(self).toks(), old(self).pos()) == Err::<
                    int,
                    ParseErrModel,
                >(e@) && old(self).pos()
                    <= final(self).pos() < old(self).toks().len() && final(self).toks()[final(self).pos()]
                    == e@.token && (!(is_first_attr(old(self).toks()[old(self).pos()].kind) || old(self).toks()[old(self).pos()].kind == TokenKind::KwLet)
                    ==> *final(self) == *old(self)),
            },
        decreases self.toks().len() - self.pos(),
    {
        let k = self.current();
        if kind_is_first_attr(k) {
        match self.attrs() {
            Ok(_x) => {},
            Err(e) => { return Err(e); },
        }
        match self.opt_attr_list() {
            Ok(_x) => {},
            Err(e) => { return Err(e); },
        }
            Ok(())
        } else if k == TokenKind::KwLet {
            Ok(())
        } else {
            Err(ParserError::UnexpectedToken(self.current_token(), expected_scoped_var_decl()))
        }
    }

    /// `global_var_decl -> opt_attr_list var_decl ';'`: a scoped variable
    /// declaration at the top level.
    pub fn global_var_decl(&mut self) -> (r: Result<(), ParserError>)
        requires
            old(self).active(),
        ensures
            final(self).scanner == old(self).scanner,
            match r {
                Ok(()) => spec_global_var_decl(old(self).toks(), old(self).pos()) == Ok::<
                    int,
                    ParseErrModel,
                >(final(self).pos()) && old(self).pos() < final(self).pos() && final(
                    self).active(),
                Err(e) => spec_global_var_decl(old(self).toks(), old(self).pos()) == Err::<
                    int,
                    ParseErrModel,
                >(e@) && old(self).pos()
                    <= final(self).pos() < old(self).toks().len() && final(self).toks()[final(self).pos()]
                    == e@.token && (!(is_first_scoped_var_decl(old(self).toks()[old(self).pos()].kind))
                    ==> *final(self) == *old(self)),
            },
    {
        let k = self.current();
        if kind_is_first_scoped_var_decl(k) {
        match self.opt_attr_list() {
            Ok(_x) => {},
            Err(e) => { return Err(e); },
        }
        match self.var_decl() {
            Ok(_x) => {},
            Err(e) => { return Err(e); },
        }
        match self.match_kind(TokenKind::Semi) {
            Ok(_x) => {},
            Err(e) => { return Err(e); },
        }
            Ok(())
        } else {
            Err(ParserError::UnexpectedToken(self.current_token(), expected_scoped_var_decl()))
        }
    }

    /// `compound_stmt -> '{' stmt_list '}'`.
    pub fn compound_stmt(&mut self) -> (r: Result<(), ParserError>)
        requires
            old(self).active(),
        ensures
            final(self).scanner == old(self).scanner,
            match r {
                Ok(()) => spec_compound_stmt(old(self).toks(), old(self).pos()) == Ok::<
                    int,
                    ParseErrModel,
                >(final(self).pos()) && old(self).pos() < final(self).pos() && final(
                    self).active(),
                Err(e) => spec_compound_stmt(old(self).toks(), old(self).pos()) == Err::<
                    int,
                    ParseErrModel,
                >(e@) && old(self).pos()
                    <= final(self).pos() < old(self).toks().len() && final(self).toks()[final(self).pos()]
                    == e@.token && (!(old(self).toks()[old(self).pos()].kind == TokenKind::LBrace)
                    ==> *final(self) == *old(self)),
            },
    {
        let k = self.current();
        if k == TokenKind::LBrace {
        match self.match_kind(TokenKind::LBrace) {
            Ok(_x) => {},
            Err(e) => { return Err(e); },
        }
        match self.stmt_list() {
            Ok(_x) => {},
            Err(e) => { return Err(e); },
        }
        match self.match_kind(TokenKind::RBrace) {
            Ok(_x) => {},
            Err(e) => { return Err(e); },
        }
            Ok(())
        } else {
            Err(ParserError::UnexpectedToken(self.current_token(), expected_compound_stmt()))
        }
    }

    /// `stmt_list -> stmt stmt_list | eps`: the statements of a compound
    /// statement.
    pub fn stmt_list(&mut self) -> (r: Result<(), ParserError>)
        requires
            old(self).active(),
        ensures
            final(self).scanner == old(self).scanner,
            match r {
                Ok(()) => spec_stmt_list(old(self).toks(), old(self).pos()) == Ok::<
                    int,
                    ParseErrModel,
                >(final(self).pos()) && old(self).pos() <= final(self).pos() && final(
                    self).active(),
                Err(e) => spec_stmt_list(old(self).toks(), old(self).pos()) == Err::<
                    int,
                    ParseErrModel,
                >(e@) && old(self).pos()
                    <= final(self).pos() < old(self).toks().len() && final(self).toks()[final(self).pos()]
                    == e@.token && (!(is_first_stmt(old(self).toks()[old(self).pos()].kind) || old(self).toks()[old(self).pos()].kind == TokenKind::RBrace)
                    ==> *final(self) == *old(self)),
            },
        decreases self.toks().len() - self.pos(),
    {
        let k = self.current();
        if kind_is_first_stmt(k) {
        match self.stmt() {
            Ok(_x) => {},
            Err(e) => { return Err(e); },
        }
        match self.stmt_list() {
            Ok(_x) => {},
            Err(e) => { return Err(e); },
        }
            Ok(())
        } else if k == TokenKind::RBrace {
            Ok(())
        } else {
            Err(ParserError::UnexpectedToken(self.current_token(), expected_stmt_list()))
        }
    }

    /// `stmt -> 'return' expr ';' | var_decl ';' | ID '=' expr ';'`.
    pub fn stmt(&mut self) -> (r: Result<(), ParserError>)
        requires
            old(self).active(),
        ensures
            final(self).scanner == old(self).scanner,
            match r {
                Ok(()) => spec_stmt(old(self).toks(), old(self).pos()) == Ok::<
                    int,
                    ParseErrModel,
                >(final(self).pos()) && old(self).pos() < final(self).pos() && final(
                    self).active(),
                Err(e) => spec_stmt(old(self).toks(), old(self).pos()) == Err::<
                    int,
                    ParseErrModel,
                >(e@) && old(self).pos()
                    <= final(self).pos() < old(self).toks().len() && final(self).toks()[final(self).pos()]
                    == e@.token && (!(is_first_stmt(old(self).toks()[old(self).pos()].kind))
                    ==> *final(self) == *old(self)),
            },
    {
        let k = self.current();
        if k == TokenKind::KwReturn {
        match self.match_kind(TokenKind::KwReturn) {
            Ok(_x) => {},
            Err(e) => { return Err(e); },
        }
        match self.expr() {
            Ok(_x) => {},
            Err(e) => { return Err(e); },
        }
        match self.match_kind(TokenKind::Semi) {
            Ok(_x) => {},
            Err(e) => { return Err(e); },
        }
            Ok(())
        } else if k == TokenKind::KwLet {
        match self.var_decl() {
            Ok(_x) => {},
            Err(e) => { return Err(e); },
        }
        match self.match_kind(TokenKind::Semi) {
            Ok(_x) => {},
            Err(e) => { return Err(e); },
        }
            Ok(())
        } else if k == TokenKind::Id {
        match self.match_kind(TokenKind::Id) {
            Ok(_x) => {},
            Err(e) => { return Err(e); },
        }
        match self.match_kind(TokenKind::Assign) {
            Ok(_x) => {},
            Err(e) => { return Err(e); },
        }
        match self.expr() {
            Ok(_x) => {},
            Err(e) => { return Err(e); },
        }
        match self.match_kind(TokenKind::Semi) {
            Ok(_x) => {},
            Err(e) => { return Err(e); },
        }
            Ok(())
        } else {
            Err(ParserError::UnexpectedToken(self.current_token(), expected_stmt()))
        }
    }

    /// `var_decl -> var_decl_keyword ID var_decl_tail`: one variable binding.
    pub fn var_decl(&mut self) -> (r: Result<(), ParserError>)
        requires
            old(self).active(),
        ensures
            final(self).scanner == old(self).scanner,
            match r {
                Ok(()) => spec_var_decl(old(self).toks(), old(self).pos()) == Ok::<
                    int,
                    ParseErrModel,
                >(final(self).pos()) && old(self).pos() < final(self).pos() && final(
                    self).active(),
                Err(e) => spec_var_decl(old(self).toks(), old(self).pos()) == Err::<
                    int,
                    ParseErrModel,
                >(e@) && old(self).pos()
                    <= final(self).pos() < old(self).toks().len() && final(self).toks()[final(self).pos()]
                    == e@.token && (!(old(self).toks()[old(self).pos()].kind == TokenKind::KwLet)
                    ==> *final(self) == *old(self)),
            },
    {
        let k = self.current();
        if k == TokenKind::KwLet {
        match self.var_decl_keyword() {
            Ok(_x) => {},
            Err(e) => { return Err(e); },
        }
        match self.match_kind(TokenKind::Id) {
            Ok(_x) => {},
            Err(e) => { return Err(e); },
        }
        match self.var_decl_tail() {
            Ok(_x) => {},
            Err(e) => { return Err(e); },
        }
            Ok(())
        } else {
            Err(ParserError::UnexpectedToken(self.current_token(), expected_var_decl()))
        }
    }

    /// `var_decl_keyword -> 'let'`: the binding keyword.
    pub fn var_decl_keyword(&mut self) -> (r: Result<(), ParserError>)
        requires
            old(self).active(),
        ensures
            final(self).scanner == old(self).scanner,
            match r {
                Ok(()) => spec_var_decl_keyword(old(self).toks(), old(self).pos()) == Ok::<
                    int,
                    ParseErrModel,
                >(final(self).pos()) && old(self).pos() < final(self).pos() && final(
                    self).active(),
                Err(e) => spec_var_decl_keyword(old(self).toks(), old(self).pos()) == Err::<
                    int,
                    ParseErrModel,
                >(e@) && *final(self) == *old(self),
            },
    {
        let k = self.current();
        if k == TokenKind::KwLet {
        match self.match_kind(TokenKind::KwLet) {
            Ok(_x) => {},
            Err(e) => { return Err(e); },
        }
            Ok(())
        } else {
            Err(ParserError::UnexpectedToken(self.current_token(), expected_var_decl()))
        }
    }

    /// `var_decl_tail -> ':' types opt_assignment`: the declared type and an
    /// optional initializer.
    pub fn var_decl_tail(&mut self) -> (r: Result<(), ParserError>)
        requires
            old(self).active(),
        ensures
            final(self).scanner == old(self).scanner,
            match r {
                Ok(()) => spec_var_decl_tail(old(self).toks(), old(self).pos()) == Ok::<
                    int,
                    ParseErrModel,
                >(final(self).pos()) && old(self).pos() < final(self).pos() && final(
                    self).active(),
                Err(e) => spec_var_decl_tail(old(self).toks(), old(self).pos()) == Err::<
                    int,
                    ParseErrModel,
                >(e@) && old(self).pos()
                    <= final(self).pos() < old(self).toks().len() && final(self).toks()[final(self).pos()]
                    == e@.token && (!(old(self).toks()[old(self).pos()].kind == TokenKind::Colon)
                    ==> *final(self) == *old(self)),
            },
    {
        let k = self.current();
        if k == TokenKind::Colon {
        match self.match_kind(TokenKind::Colon) {
            Ok(_x) => {},
            Err(e) => { return Err(e); },
        }
        match self.types() {
            Ok(_x) => {},
            Err(e) => { return Err(e); },
        }
        match self.opt_assignment() {
            Ok(_x) => {},
            Err(e) => { return Err(e); },
        }
            Ok(())
        } else {
            Err(ParserError::UnexpectedToken(self.current_token(), expected_var_decl_tail()))
        }
    }

    /// `opt_assignment -> '=' expr | eps`: an optional initializer.
    pub fn opt_assignment(&mut self) -> (r: Result<(), ParserError>)
        requires
            old(self).active(),
        ensures
            final(self).scanner == old(self).scanner,
            match r {
                Ok(()) => spec_opt_assignment(old(self).toks(), old(self).pos()) == Ok::<
                    int,
                    ParseErrModel,
                >(final(self).pos()) && old(self).pos() <= final(self).pos() && final(
                    self).active(),
                Err(e) => spec_opt_assignment(old(self).toks(), old(self).pos()) == Err::<
                    int,
                    ParseErrModel,
                >(e@) && old(self).pos()
                    <= final(self).pos() < old(self).toks().len() && final(self).toks()[final(self).pos()]
                    == e@.token && (!(old(self).toks()[old(self).pos()].kind == TokenKind::Assign || old(self).toks()[old(self).pos()].kind == TokenKind::Semi)
                    ==> *final(self) == *old(self)),
            },
    {
        let k = self.current();
        if k == TokenKind::Assign {
        match self.match_kind(TokenKind::Assign) {
            Ok(_x) => {},
            Err(e) => { return Err(e); },
        }
        match self.expr() {
            Ok(_x) => {},
            Err(e) => { return Err(e); },
        }
            Ok(())
        } else if k == TokenKind::Semi {
            Ok(())
        } else {
            Err(ParserError::UnexpectedToken(self.current_token(), expected_opt_assignment()))
        }
    }

    /// `function -> function_def compound_stmt`.
    pub fn function(&mut self) -> (r: Result<(), ParserError>)
        requires
            old(self).active(),
        ensures
            final(self).scanner == old(self).scanner,
            match r {
                Ok(()) => spec_function(old(self).toks(), old(self).pos()) == Ok::<
                    int,
                    ParseErrModel,
                >(final(self).pos()) && old(self).pos() < final(self).pos() && final(
                    self).active(),
                Err(e) => spec_function(old(self).toks(), old(self).pos()) == Err::<
                    int,
                    ParseErrModel,
                >(e@) && old(self).pos()
                    <= final(self).pos() < old(self).toks().len() && final(self).toks()[final(self).pos()]
                    == e@.token && (!(is_first_function(old(self).toks()[old(self).pos()].kind))
                    ==> *final(self) == *old(self)),
            },
    {
        let k = self.current();
        if kind_is_first_function(k) {
        match self.function_def() {
            Ok(_x) => {},
            Err(e) => { return Err(e); },
        }
        match self.compound_stmt() {
            Ok(_x) => {},
            Err(e) => { return Err(e); },
        }
            Ok(())
        } else {
            Err(ParserError::UnexpectedToken(self.current_token(), expected_function()))
        }
    }

    /// `global_stmt -> function | global_var_decl`: dispatch on the stage,
    /// entry and `fn` keywords against the attribute and `let` keywords.
    pub fn global_stmt(&mut self) -> (r: Result<(), ParserError>)
        requires
            old(self).active(),
        ensures
            final(self).scanner == old(self).scanner,
            match r {
                Ok(()) => spec_global_stmt(old(self).toks(), old(self).pos()) == Ok::<
                    int,
                    ParseErrModel,
                >(final(self).pos()) && old(self).pos() < final(self).pos() && final(
                    self).active(),
                Err(e) => spec_global_stmt(old(self).toks(), old(self).pos()) == Err::<
                    int,
                    ParseErrModel,
                >(e@) && old(self).pos()
                    <= final(self).pos() < old(self).toks().len() && final(self).toks()[final(self).pos()]
                    == e@.token && (!(is_first_function(old(self).toks()[old(self).pos()].kind) || is_first_scoped_var_decl(old(self).toks()[old(self).pos()].kind))
                    ==> *final(self) == *old(self)),
            },
    {
        let k = self.current();
        if kind_is_first_function(k) {
            self.function()
        } else if kind_is_first_scoped_var_decl(k) {
            self.global_var_decl()
        } else {
            Err(ParserError::UnexpectedToken(self.current_token(), expected_program()))
        }
    }

    /// `global_stmt_list -> global_stmt global_stmt_list | eps`: the remaining
    /// global statements, empty at the end-of-input token.
    pub fn global_stmt_list(&mut self) -> (r: Result<(), ParserError>)
        requires
            old(self).active(),
        ensures
            final(self).scanner == old(self).scanner,
            match r {
                Ok(()) => spec_global_stmt_list(old(self).toks(), old(self).pos()) == Ok::<
                    int,
                    ParseErrModel,
                >(final(self).pos()) && old(self).pos() <= final(self).pos() && final(
                    self).active(),
                Err(e) => spec_global_stmt_list(old(self).toks(), old(self).pos()) == Err::<
                    int,
                    ParseErrModel,
                >(e@) && old(self).pos()
                    <= final(self).pos() < old(self).toks().len() && final(self).toks()[final(self).pos()]
                    == e@.token && (!(is_first_function(old(self).toks()[old(self).pos()].kind) || is_first_scoped_var_decl(old(self).toks()[old(self).pos()].kind) || old(self).toks()[old(self).pos()].kind == TokenKind::Eof)
                    ==> *final(self) == *old(self)),
            },
        decreases self.toks().len() - self.pos(),
    {
        let k = self.current();
        if kind_is_first_function(k) || kind_is_first_scoped_var_decl(k) {
        match self.global_stmt() {
            Ok(_x) => {},
            Err(e) => { return Err(e); },
        }
        match self.global_stmt_list() {
            Ok(_x) => {},
            Err(e) => { return Err(e); },
        }
            Ok(())
        } else if k == TokenKind::Eof {
            Ok(())
        } else {
            Err(ParserError::UnexpectedToken(self.current_token(), expected_global_stmt_list()))
        }
    }

    /// `program -> global_stmt global_stmt_list`: at least one global statement.
    pub fn program(&mut self) -> (r: Result<(), ParserError>)
        requires
            old(self).active(),
        ensures
            final(self).scanner == old(self).scanner,
            match r {
                Ok(()) => spec_program(old(self).toks(), old(self).pos()) == Ok::<
                    int,
                    ParseErrModel,
                >(final(self).pos()) && old(self).pos() < final(self).pos() && final(
                    self).active(),
                Err(e) => spec_program(old(self).toks(), old(self).pos()) == Err::<
                    int,
                    ParseErrModel,
                >(e@) && old(self).pos()
                    <= final(self).pos() < old(self).toks().len() && final(self).toks()[final(self).pos()]
                    == e@.token && (!(is_first_function(old(self).toks()[old(self).pos()].kind) || is_first_scoped_var_decl(old(self).toks()[old(self).pos()].kind))
                    ==> *final(self) == *old(self)),
            },
    {
        let k = self.current();
        if kind_is_first_function(k) || kind_is_first_scoped_var_decl(k) {
        match self.global_stmt() {
            Ok(_x) => {},
            Err(e) => { return Err(e); },
        }
        match self.global_stmt_list() {
            Ok(_x) => {},
            Err(e) => { return Err(e); },
        }
            Ok(())
        } else {
            Err(ParserError::UnexpectedToken(self.current_token(), expected_program()))
        }
    }

    /// Parses the whole token stream: a program followed by the end-of-input
    /// token, which is consumed too. On success every token has been consumed;
    /// on failure the error names the offending token and the exact set of
    /// kinds that would have been accepted in its place.
    pub fn parse(&mut self) -> (r: Result<(), ParserError>)
        requires
            wf_tokens(old(self).toks()),
            old(self).pos() == 0,
        ensures
            final(self).scanner == old(self).scanner,
            match r {
                Ok(()) => spec_parse(old(self).toks()) == Ok::<int, ParseErrModel>(
                    final(self).pos(),
                ) && final(self).pos() == old(self).toks().len(),
                Err(e) => spec_parse(old(self).toks()) == Err::<int, ParseErrModel>(e@)
                    && old(self).pos() <= final(self).pos() < old(self).toks().len()
                    && final(self).toks()[final(self).pos()] == e@.token,
            },
    {
        match self.program() {
            Ok(()) => {},
            Err(e) => { return Err(e); },
        }
        match self.match_kind(TokenKind::Eof) {
            Ok(_t) => {
                proof {
                    assert(old(self).toks()[final(self).pos() - 1].kind == TokenKind::Eof);
                }
                Ok(())
            },
            Err(e) => Err(e),
        }
    }
}


/// A successful scan yields a token stream the parser can run on: nonempty,
/// ending in the end-of-input token, with that token nowhere else.
pub proof fn lemma_scan_tokens_wf(src: Seq<char>)
    ensures
        scan_spec(src) matches Ok(ts) ==> wf_tokens(ts),
{
    lemma_scan_from_wf(src, 0);
}

proof fn lemma_scan_from_wf(src: Seq<char>, i: int)
    ensures
        scan_spec_from(src, i) matches Ok(ts) ==> ts.len() >= 1 && ts.last().kind
            == TokenKind::Eof && (forall|m: int|
            0 <= m < ts.len() - 1 ==> ts[m].kind != TokenKind::Eof),
    decreases src.len() - i + 1,
{
    if i >= src.len() {
    } else if is_ws_char(src[i]) {
        lemma_scan_from_wf(src, i + 1);
    } else if is_ident_start_char(src[i]) {
        let j = ident_end(src, i);
        lemma_ident_end_bounds(src, i + 1);
        lemma_scan_from_wf(src, j);
        assert(keyword_or_id_kind(src.subrange(i, j)) != TokenKind::Eof);
    } else if is_digit_char(src[i]) {
        let j = number_end(src, i);
        lemma_number_end_bounds(src, i);
        lemma_scan_from_wf(src, j);
    } else {
        match punct_at(src, i) {
            Ok((kind, j)) => {
                assert(i < j <= src.len() && kind != TokenKind::Eof);
                lemma_scan_from_wf(src, j);
            },
            Err(_) => {},
        }
    }
}


} // verus!
