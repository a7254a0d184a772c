//! Properties of the grammar that relate several parses.
use vstd::prelude::*;
use crate::ast::Expr;
use crate::parser::{
    parse_args_spec, parse_binop_rhs_spec, parse_expression_spec,
    parse_primary_spec, parse_top_level_spec, standard_table, Failure, PrecedenceTable, MAX_NESTING,
};
use crate::token::{token_at, Token};

verus! {

/// `u` holds the same tokens as `t` at every position from `lo` to `hi`; a
/// position past the end of one is past the end of the other.
pub open spec fn agree(t: Seq<Token>, u: Seq<Token>, lo: int, hi: int) -> bool {
    forall|i: int| lo <= i <= hi ==> #[trigger] token_at(u, i) == token_at(t, i)
}

/// A numeric literal read as a primary expression is a number node with the
/// literal's value, and exactly that one token is consumed.
pub proof fn lemma_number_literal_primary(t: Seq<Token>, p: int, bits: u64)
    requires
        token_at(t, p) == Some(Token::Number(bits)),
    ensures
        forall|g: PrecedenceTable, d: nat| #[trigger] parse_primary_spec(t, p, g, d) == Ok::<(Expr, int), Failure>((Expr::Number(bits), p + 1)),
{
}

proof fn lemma_primary_local(t: Seq<Token>, u: Seq<Token>, p: int, g: PrecedenceTable, d: nat)
    requires
        parse_primary_spec(t, p, g, d) is Ok,
        agree(t, u, p, parse_primary_spec(t, p, g, d)->Ok_0.1),
    ensures
        parse_primary_spec(u, p, g, d) == parse_primary_spec(t, p, g, d),
        p < parse_primary_spec(t, p, g, d)->Ok_0.1 <= t.len(),
    decreases t.len() - p, 1int,
{
    match token_at(t, p) {
        Some(Token::Identifier(name)) => {
            if token_at(t, p + 1) == Some(Token::OpenParen) && d > 0 {
                lemma_args_local(t, u, p + 2, Seq::empty(), g, (d - 1) as nat);
            }
            assert(token_at(u, p) == token_at(t, p));
            assert(token_at(u, p + 1) == token_at(t, p + 1));
        },
        Some(Token::OpenParen) => {
            assert(d > 0);
            let q = parse_expression_spec(t, p + 1, g, (d - 1) as nat)->Ok_0.1;
            lemma_expression_local(t, u, p + 1, g, (d - 1) as nat);
            assert(token_at(u, p) == token_at(t, p));
            assert(token_at(u, q) == token_at(t, q));
        },
        _ => {
            assert(token_at(u, p) == token_at(t, p));
        },
    }
}

proof fn lemma_args_local(t: Seq<Token>, u: Seq<Token>, p: int, acc: Seq<Expr>, g: PrecedenceTable, d: nat)
    requires
        parse_args_spec(t, p, acc, g, d) is Ok,
        agree(t, u, p, parse_args_spec(t, p, acc, g, d)->Ok_0.1),
    ensures
        parse_args_spec(u, p, acc, g, d) == parse_args_spec(t, p, acc, g, d),
        p < parse_args_spec(t, p, acc, g, d)->Ok_0.1 <= t.len(),
    decreases t.len() - p, 3int,
{
    if token_at(t, p) != Some(Token::ClosedParen) {
        let (a, q) = parse_expression_spec(t, p, g, d)->Ok_0;
        if token_at(t, q) == Some(Token::Comma) {
            lemma_args_local(t, u, q + 1, acc.push(a), g, d);
        }
        lemma_expression_local(t, u, p, g, d);
        assert(token_at(u, q) == token_at(t, q));
    }
    assert(token_at(u, p) == token_at(t, p));
}

proof fn lemma_expression_local(t: Seq<Token>, u: Seq<Token>, p: int, g: PrecedenceTable, d: nat)
    requires
        parse_expression_spec(t, p, g, d) is Ok,
        agree(t, u, p, parse_expression_spec(t, p, g, d)->Ok_0.1),
    ensures
        parse_expression_spec(u, p, g, d) == parse_expression_spec(t, p, g, d),
        p < parse_expression_spec(t, p, g, d)->Ok_0.1 < t.len(),
    decreases t.len() - p, 2int,
{
    let (lhs, q) = parse_primary_spec(t, p, g, d)->Ok_0;
    lemma_binop_local(t, u, q, lhs, 0, g, d);
    lemma_primary_local(t, u, p, g, d);
}

proof fn lemma_binop_local(t: Seq<Token>, u: Seq<Token>, p: int, lhs: Expr, min_prec: int, g: PrecedenceTable, d: nat)
    requires
        parse_binop_rhs_spec(t, p, lhs, min_prec, g, d) is Ok,
        agree(t, u, p, parse_binop_rhs_spec(t, p, lhs, min_prec, g, d)->Ok_0.1),
    ensures
        parse_binop_rhs_spec(u, p, lhs, min_prec, g, d) == parse_binop_rhs_spec(t, p, lhs, min_prec, g, d),
        p <= parse_binop_rhs_spec(t, p, lhs, min_prec, g, d)->Ok_0.1 < t.len(),
    decreases t.len() - p, 0int,
{
    match token_at(t, p) {
        Some(Token::Operator(op)) => {
            if g.entry(op) is Some && g.strength(op) >= min_prec {
                let (rhs, q) = parse_primary_spec(t, p + 1, g, d)->Ok_0;
                if g.strength(op) < g.lookahead(t, q) {
                    let (rhs2, r) = parse_binop_rhs_spec(t, q, rhs, g.strength(op) + 1, g, d)->Ok_0;
                    lemma_binop_local(t, u, r, Expr::Binary(op, Box::new(lhs), Box::new(rhs2)), min_prec, g, d);
                    lemma_binop_local(t, u, q, rhs, g.strength(op) + 1, g, d);
                } else {
                    lemma_binop_local(t, u, q, Expr::Binary(op, Box::new(lhs), Box::new(rhs)), min_prec, g, d);
                }
                assert(token_at(u, q) == token_at(t, q));
                lemma_primary_local(t, u, p + 1, g, d);
            }
        },
        _ => {},
    }
    assert(token_at(u, p) == token_at(t, p));
}

/// Re-parsing gives the same tree: an expression parse that succeeded reads
/// only the tokens it consumed and the one token after them, so any token
/// sequence that holds those same tokens at the same places parses, from the
/// same place, to the same tree and stops at the same position.
pub proof fn lemma_reparse_expression(t: Seq<Token>, u: Seq<Token>, p: int, g: PrecedenceTable, d: nat)
    requires
        parse_expression_spec(t, p, g, d) is Ok,
        agree(t, u, p, parse_expression_spec(t, p, g, d)->Ok_0.1),
    ensures
        parse_expression_spec(u, p, g, d) == parse_expression_spec(t, p, g, d),
{
    lemma_expression_local(t, u, p, g, d);
}

/// The same for a top-level expression.
pub proof fn lemma_reparse_top_level(t: Seq<Token>, u: Seq<Token>, p: int)
    requires
        parse_top_level_spec(t, p) is Ok,
        agree(t, u, p, parse_top_level_spec(t, p)->Ok_0.1),
    ensures
        parse_top_level_spec(u, p) == parse_top_level_spec(t, p),
{
    lemma_expression_local(t, u, p, standard_table(), MAX_NESTING as nat);
}

} // verus!
