use vstd::prelude::*;
use crate::token::Token;
use crate::token::TokenModel;

verus! {

broadcast use vstd::seq::group_seq_axioms, vstd::std_specs::vec::group_vec_axioms;

/// Mathematical model of an expression tree. Operator and literal nodes keep
/// the token they were built from, so later phases can recover the exact
/// operator identity and source location.
#[verifier::ext_equal]
pub ghost enum SpecExpr {
    Id(TokenModel),
    ArrayLookup(Box<SpecExpr>, Box<SpecExpr>),
    Unary(TokenModel, Box<SpecExpr>),
    Binary(TokenModel, Box<SpecExpr>, Box<SpecExpr>),
    LitNumber(TokenModel),
    LitBool(TokenModel, bool),
    LitArray(Seq<SpecExpr>),
    Call(TokenModel, Seq<SpecExpr>),
}

/// An identifier occurrence: the identifier token itself.
#[derive(Debug)]
pub struct Id {
    pub token: Token,
}

impl Id {
    /// Wraps an identifier token.
    pub fn new(token: Token) -> (r: Id)
        ensures
            r.token == token,
    {
        Id { token }
    }
}

/// A literal expression: a number token, a boolean token with its value, or
/// an array of sub-expressions.
#[derive(Debug)]
pub enum Literal {
    Number(Token),
    Boolean(Token, bool),
    Array(Vec<Expr>),
}

/// An expression of the abstract syntax tree. Each node exclusively owns its
/// children; the tree is acyclic by construction.
#[derive(Debug)]
pub enum Expr {
    IdExpr(Id),
    ArrayLookupExpr(Box<Expr>, Box<Expr>),
    UnaryExpr(Token, Box<Expr>),
    BinaryExpr(Token, Box<Expr>, Box<Expr>),
    LiteralExpr(Literal),
    FunctionExpr(Id, Vec<Expr>),
}

/// The model of an expression tree: tokens replaced by their models.
pub open spec fn expr_view(e: Expr) -> SpecExpr
    decreases e,
{
    match e {
        Expr::IdExpr(id) => SpecExpr::Id(id.token@),
        Expr::ArrayLookupExpr(a, ix) => SpecExpr::ArrayLookup(
            Box::new(expr_view(*a)),
            Box::new(expr_view(*ix)),
        ),
        Expr::UnaryExpr(op, x) => SpecExpr::Unary(op@, Box::new(expr_view(*x))),
        Expr::BinaryExpr(op, l, r) => SpecExpr::Binary(
            op@,
            Box::new(expr_view(*l)),
            Box::new(expr_view(*r)),
        ),
        Expr::LiteralExpr(Literal::Number(t)) => SpecExpr::LitNumber(t@),
        Expr::LiteralExpr(Literal::Boolean(t, b)) => SpecExpr::LitBool(t@, b),
        Expr::LiteralExpr(Literal::Array(es)) => SpecExpr::LitArray(exprs_view(es)),
        Expr::FunctionExpr(id, args) => SpecExpr::Call(id.token@, exprs_view(args)),
    }
}

/// The models of a vector of expressions.
pub open spec fn exprs_view(es: Vec<Expr>) -> Seq<SpecExpr>
    decreases es, es@.len() + 1,
{
    exprs_view_from(es, 0)
}

/// The models of the expressions of `es` from index `i` on.
pub open spec fn exprs_view_from(es: Vec<Expr>, i: int) -> Seq<SpecExpr>
    decreases es, es@.len() - i,
{
    if 0 <= i < es@.len() {
        seq![expr_view(es@[i])] + exprs_view_from(es, i + 1)
    } else {
        Seq::empty()
    }
}

/// `exprs_view` is the element-wise model of the vector.
pub proof fn lemma_exprs_view_is_map(es: Vec<Expr>)
    ensures
        exprs_view(es) == es@.map_values(|x: Expr| expr_view(x)),
{
    lemma_exprs_view_from_is_map(es, 0);
    assert(es@.subrange(0, es@.len() as int) =~= es@);
}

proof fn lemma_exprs_view_from_is_map(es: Vec<Expr>, i: int)
    requires
        0 <= i <= es@.len(),
    ensures
        exprs_view_from(es, i) == es@.subrange(i, es@.len() as int).map_values(
            |x: Expr| expr_view(x),
        ),
    decreases es@.len() - i,
{
    let f = |x: Expr| expr_view(x);
    if i < es@.len() {
        lemma_exprs_view_from_is_map(es, i + 1);
        assert(exprs_view_from(es, i) =~= es@.subrange(i, es@.len() as int).map_values(f)) by {
            assert(es@.subrange(i + 1, es@.len() as int) =~= es@.subrange(
                i,
                es@.len() as int,
            ).drop_first());
        }
    } else {
        assert(exprs_view_from(es, i) =~= es@.subrange(i, es@.len() as int).map_values(f));
    }
}

impl View for Expr {
    type V = SpecExpr;

    open spec fn view(&self) -> SpecExpr {
        expr_view(*self)
    }
}

} // verus!
