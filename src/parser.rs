//! Recursive-descent parsing with precedence climbing for binary operators.
//!
//! Each parsing function reads from a `TokenStream` and is described by a
//! spec function over the token sequence and the read position: on success it
//! yields the model of the tree and the position after the consumed tokens, on
//! failure the error. The spec functions are the grammar of the language.
use vstd::prelude::*;
use crate::ast::{lemma_views_push, views, Ast, Expr, Function, FunctionModel, ProtoModel, Prototype};
use crate::token::{token_at, Op, Token, TokenModel, TokenStream};

verus! {

broadcast use vstd::seq::group_seq_axioms, vstd::string::group_string_axioms;

/// Why a parse failed.
#[derive(Clone, PartialEq, Debug)]
pub enum ParserError {
    /// A token was present where the grammar forbids it.
    UnexpectedToken(Token),
    /// The input ended where a token was required.
    UnexpectedEOI,
    /// A specific token was required; it is the payload. An identifier is
    /// shown with empty text.
    ExpectedToken(Token),
    /// Parentheses or calls were nested deeper than the parser allows.
    NestingTooDeep,
}

/// The model of a `ParserError`.
pub enum Failure {
    UnexpectedToken(TokenModel),
    UnexpectedEoi,
    ExpectedToken(TokenModel),
    NestingTooDeep,
}

impl ParserError {
    pub open spec fn view(&self) -> Failure {
        match self {
            ParserError::UnexpectedToken(t) => Failure::UnexpectedToken(t@),
            ParserError::UnexpectedEOI => Failure::UnexpectedEoi,
            ParserError::ExpectedToken(t) => Failure::ExpectedToken(t@),
            ParserError::NestingTooDeep => Failure::NestingTooDeep,
        }
    }
}

/// How deeply parenthesised expressions and call arguments may nest in one
/// parse; the bound keeps the parser's own recursion shallow.
pub const MAX_NESTING: usize = 256;

/// What a parse yields: a value and the position after it, or a failure.
pub type Parsed<T> = Result<(T, int), Failure>;

/// The model of an expression parse that stopped at position `end`.
pub open spec fn outcome(r: Result<Ast, ParserError>, end: usize) -> Parsed<Expr> {
    match r {
        Ok(a) => Ok((a@, end as int)),
        Err(e) => Err(e@),
    }
}

pub open spec fn proto_outcome(r: Result<Prototype, ParserError>, end: usize) -> Parsed<ProtoModel> {
    match r {
        Ok(a) => Ok((a@, end as int)),
        Err(e) => Err(e@),
    }
}

pub open spec fn function_outcome(r: Result<Function, ParserError>, end: usize) -> Parsed<FunctionModel> {
    match r {
        Ok(a) => Ok((a@, end as int)),
        Err(e) => Err(e@),
    }
}

/// Binding strength of each binary operator, fixed for a parse. An operator
/// that the table leaves out (`None`) is no binary operator to the parser: it
/// ends the expression before it, without an error, as any other token that
/// is not an operator does.
#[derive(Clone, Copy, PartialEq, Eq, Debug)]
pub struct PrecedenceTable {
    pub plus: Option<u16>,
    pub minus: Option<u16>,
    pub mult: Option<u16>,
    pub div: Option<u16>,
    pub modulo: Option<u16>,
}

/// The usual table: multiplicative operators bind tighter than additive ones.
pub open spec fn standard_table() -> PrecedenceTable {
    PrecedenceTable { plus: Some(20), minus: Some(20), mult: Some(40), div: Some(40), modulo: Some(40) }
}

impl PrecedenceTable {
    pub open spec fn entry(self, op: Op) -> Option<u16> {
        match op {
            Op::Plus => self.plus,
            Op::Minus => self.minus,
            Op::Mult => self.mult,
            Op::Div => self.div,
            Op::Modulo => self.modulo,
        }
    }

    /// Binding strength of `op`; -1 where the table leaves it out.
    pub open spec fn strength(self, op: Op) -> int {
        match self.entry(op) {
            Some(v) => v as int,
            None => -1,
        }
    }

    /// Binding strength of a token; -1 for a token that is no binary operator
    /// of the table.
    pub open spec fn token_strength(self, tok: Token) -> int {
        match tok {
            Token::Operator(op) => self.strength(op),
            _ => -1,
        }
    }

    /// Binding strength of the token at `p`; -1 at the end of the input.
    pub open spec fn lookahead(self, t: Seq<Token>, p: int) -> int {
        match token_at(t, p) {
            Some(tok) => self.token_strength(tok),
            None => -1,
        }
    }

    pub fn standard() -> (r: PrecedenceTable)
        ensures
            r == standard_table(),
    {
        PrecedenceTable { plus: Some(20), minus: Some(20), mult: Some(40), div: Some(40), modulo: Some(40) }
    }

    pub fn lookup(&self, op: Op) -> (r: Option<u16>)
        ensures
            r == self.entry(op),
    {
        match op {
            Op::Plus => self.plus,
            Op::Minus => self.minus,
            Op::Mult => self.mult,
            Op::Div => self.div,
            Op::Modulo => self.modulo,
        }
    }
}

/// A successful parse from `p` stops after `p` and within the input. The
/// grammar below fails where it would not, which never happens: the
/// executable parsers, and the lemmas on re-parsing, show the bounds.
pub open spec fn advances(t: Seq<Token>, p: int, q: int) -> bool {
    p < q <= t.len()
}

/// A number, a variable, a call `name(arg, ...)` or a parenthesised expression.
/// In this and the three functions below, `g` gives the binding strengths of
/// the operators and `d` is how many further levels of nesting are allowed: a call or a parenthesised expression with none left
/// fails, and its arguments or contents get one level less.
pub open spec fn parse_primary_spec(t: Seq<Token>, p: int, g: PrecedenceTable, d: nat) -> Parsed<Expr>
    decreases t.len() - p, 1int,
{
    match token_at(t, p) {
        None => Err(Failure::UnexpectedEoi),
        Some(Token::Identifier(name)) => if token_at(t, p + 1) == Some(Token::OpenParen) {
            if d == 0 {
                Err(Failure::NestingTooDeep)
            } else {
                match parse_args_spec(t, p + 2, Seq::empty(), g, (d - 1) as nat) {
                    Ok((args, q)) => Ok((Expr::Call(name@, args), q)),
                    Err(e) => Err(e),
                }
            }
        } else {
            Ok((Expr::Variable(name@), p + 1))
        },
        Some(Token::Number(bits)) => Ok((Expr::Number(bits), p + 1)),
        Some(Token::OpenParen) => if d == 0 {
            Err(Failure::NestingTooDeep)
        } else {
            match parse_expression_spec(t, p + 1, g, (d - 1) as nat) {
                Ok((e, q)) => if token_at(t, q) == Some(Token::ClosedParen) {
                    Ok((e, q + 1))
                } else {
                    Err(Failure::ExpectedToken(TokenModel::ClosedParen))
                },
                Err(e) => Err(e),
            }
        },
        Some(tok) => Err(Failure::UnexpectedToken(tok@)),
    }
}

/// The arguments of a call from `p` (just after the opening parenthesis) to
/// the closing parenthesis, appended to `acc`.
pub open spec fn parse_args_spec(t: Seq<Token>, p: int, acc: Seq<Expr>, g: PrecedenceTable, d: nat) -> Result<(Seq<Expr>, int), Failure>
    decreases t.len() - p, 3int,
{
    if token_at(t, p) == Some(Token::ClosedParen) {
        Ok((acc, p + 1))
    } else {
        match parse_expression_spec(t, p, g, d) {
            Ok((a, q)) => if !advances(t, p, q) {
                Err(Failure::UnexpectedEoi)
            } else if token_at(t, q) == Some(Token::Comma) {
                parse_args_spec(t, q + 1, acc.push(a), g, d)
            } else if token_at(t, q) == Some(Token::ClosedParen) {
                Ok((acc.push(a), q + 1))
            } else {
                Err(Failure::ExpectedToken(TokenModel::ClosedParen))
            },
            Err(e) => Err(e),
        }
    }
}

/// A primary expression followed by binary operators and their operands.
pub open spec fn parse_expression_spec(t: Seq<Token>, p: int, g: PrecedenceTable, d: nat) -> Parsed<Expr>
    decreases t.len() - p, 2int,
{
    match parse_primary_spec(t, p, g, d) {
        Ok((lhs, q)) => if !advances(t, p, q) {
            Err(Failure::UnexpectedEoi)
        } else {
            parse_binop_rhs_spec(t, q, lhs, 0, g, d)
        },
        Err(e) => Err(e),
    }
}

/// Precedence climbing from `p`: folds each operator of strength at least
/// `min_prec` and its operand into `lhs`, left to right; an operand is first
/// extended by the operators after it that bind tighter than the one before it.
pub open spec fn parse_binop_rhs_spec(t: Seq<Token>, p: int, lhs: Expr, min_prec: int, g: PrecedenceTable, d: nat) -> Parsed<Expr>
    decreases t.len() - p, 0int,
{
    match token_at(t, p) {
        None => Err(Failure::UnexpectedEoi),
        Some(Token::Operator(op)) => if g.entry(op) is None || g.strength(op) < min_prec {
            Ok((lhs, p))
        } else {
            match parse_primary_spec(t, p + 1, g, d) {
                Ok((rhs, q)) => if !advances(t, p, q) {
                    Err(Failure::UnexpectedEoi)
                } else if g.strength(op) < g.lookahead(t, q) {
                    match parse_binop_rhs_spec(t, q, rhs, g.strength(op) + 1, g, d) {
                        Ok((rhs2, r)) => if !advances(t, p, r) {
                            Err(Failure::UnexpectedEoi)
                        } else {
                            parse_binop_rhs_spec(t, r, Expr::Binary(op, Box::new(lhs), Box::new(rhs2)), min_prec, g, d)
                        },
                        Err(e) => Err(e),
                    }
                } else {
                    parse_binop_rhs_spec(t, q, Expr::Binary(op, Box::new(lhs), Box::new(rhs)), min_prec, g, d)
                },
                Err(e) => Err(e),
            }
        },
        Some(_) => Ok((lhs, p)),
    }
}


/// The names of a run of consecutive identifiers starting at `p`.
pub open spec fn param_run(t: Seq<Token>, p: int) -> Seq<Seq<char>>
    decreases t.len() - p,
{
    match token_at(t, p) {
        Some(Token::Identifier(name)) => seq![name@] + param_run(t, p + 1),
        _ => Seq::empty(),
    }
}

/// `name ( param param ... )`: parameters are identifiers without separators.
pub open spec fn parse_prototype_spec(t: Seq<Token>, p: int) -> Parsed<ProtoModel> {
    match token_at(t, p) {
        Some(Token::Identifier(name)) => if token_at(t, p + 1) == Some(Token::OpenParen) {
            let params = param_run(t, p + 2);
            let q = p + 2 + params.len();
            if token_at(t, q) == Some(Token::ClosedParen) {
                Ok((ProtoModel { name: name@, params }, q + 1))
            } else {
                Err(Failure::ExpectedToken(TokenModel::ClosedParen))
            }
        } else {
            Err(Failure::ExpectedToken(TokenModel::OpenParen))
        },
        _ => Err(Failure::ExpectedToken(TokenModel::Identifier(Seq::empty()))),
    }
}

/// The position after the leading keyword of a declaration: one token is
/// skipped, if there is one.
pub open spec fn after_keyword(t: Seq<Token>, p: int) -> int {
    if p < t.len() {
        p + 1
    } else {
        p
    }
}

/// A keyword, then a prototype.
pub open spec fn parse_extern_spec(t: Seq<Token>, p: int) -> Parsed<ProtoModel> {
    parse_prototype_spec(t, after_keyword(t, p))
}

/// A keyword, a prototype, then one expression as the body.
pub open spec fn parse_definition_spec(t: Seq<Token>, p: int) -> Parsed<FunctionModel> {
    match parse_prototype_spec(t, after_keyword(t, p)) {
        Ok((proto, q)) => match parse_expression_spec(t, q, standard_table(), MAX_NESTING as nat) {
            Ok((body, r)) => Ok((FunctionModel { proto, body }, r)),
            Err(e) => Err(e),
        },
        Err(e) => Err(e),
    }
}

/// The reserved name of the function that wraps a top-level expression.
pub open spec fn anonymous_name() -> Seq<char> {
    "<anonymous>"@
}

/// One expression, as the body of a function without parameters named
/// `anonymous_name()`.
pub open spec fn parse_top_level_spec(t: Seq<Token>, p: int) -> Parsed<FunctionModel> {
    match parse_expression_spec(t, p, standard_table(), MAX_NESTING as nat) {
        Ok((body, q)) => Ok((FunctionModel { proto: ProtoModel { name: anonymous_name(), params: Seq::empty() }, body }, q)),
        Err(e) => Err(e),
    }
}

/// Binding strength of a token in `table`: that of its operator, -1 for an
/// operator the table leaves out and for any other token.
pub fn get_operator_precedence(table: &PrecedenceTable, token: &Token) -> (r: i32)
    ensures
        r == table.token_strength(*token),
{
    match token {
        Token::Operator(op) => match table.lookup(*op) {
            Some(v) => v as i32,
            None => -1,
        },
        _ => -1,
    }
}

/// Parses one primary expression: a number, a variable, a call or a
/// parenthesised expression.
pub fn parse_primary(tokens: &mut TokenStream) -> (r: Result<Ast, ParserError>)
    ensures
        final(tokens).tokens@ == old(tokens).tokens@,
        outcome(r, final(tokens).pos) == parse_primary_spec(
            old(tokens).tokens@,
            old(tokens).pos as int,
            standard_table(),
            MAX_NESTING as nat,
        ),
{
    let table = PrecedenceTable::standard();
    parse_primary_with(tokens, &table, MAX_NESTING)
}

/// Parses a full expression: a primary expression and the binary operators
/// that follow it.
pub fn parse_expression(tokens: &mut TokenStream) -> (r: Result<Ast, ParserError>)
    ensures
        final(tokens).tokens@ == old(tokens).tokens@,
        outcome(r, final(tokens).pos) == parse_expression_spec(
            old(tokens).tokens@,
            old(tokens).pos as int,
            standard_table(),
            MAX_NESTING as nat,
        ),
{
    let table = PrecedenceTable::standard();
    parse_expression_with(tokens, &table, MAX_NESTING)
}

/// Precedence climbing: folds the operators of strength at least `expr_prec`
/// that follow, with their operands, into `lhs`.
pub fn parse_binop_rhs(tokens: &mut TokenStream, lhs: Ast, expr_prec: i32) -> (r: Result<Ast, ParserError>)
    ensures
        final(tokens).tokens@ == old(tokens).tokens@,
        outcome(r, final(tokens).pos) == parse_binop_rhs_spec(
            old(tokens).tokens@,
            old(tokens).pos as int,
            lhs@,
            expr_prec as int,
            standard_table(),
            MAX_NESTING as nat,
        ),
{
    let table = PrecedenceTable::standard();
    parse_binop_rhs_with(tokens, lhs, expr_prec, &table, MAX_NESTING)
}

/// `parse_primary` with the binding strengths of `table` and `budget` further levels of nesting allowed.
pub fn parse_primary_with(tokens: &mut TokenStream, table: &PrecedenceTable, budget: usize) -> (r: Result<Ast, ParserError>)
    ensures
        final(tokens).tokens@ == old(tokens).tokens@,
        outcome(r, final(tokens).pos) == parse_primary_spec(old(tokens).tokens@, old(tokens).pos as int, *table, budget as nat),
        r is Ok ==> advances(old(tokens).tokens@, old(tokens).pos as int, final(tokens).pos as int),
    decreases old(tokens).tokens@.len() - old(tokens).pos, 1int,
{
    match tokens.peek() {
        Some(Token::Identifier(_)) => parse_identifier_expr(tokens, table, budget),
        Some(Token::Number(_)) => parse_number_expr(tokens),
        Some(Token::OpenParen) => parse_paren_expr(tokens, table, budget),
        Some(unexpected) => Err(ParserError::UnexpectedToken(unexpected.duplicate())),
        None => Err(ParserError::UnexpectedEOI),
    }
}

fn parse_number_expr(tokens: &mut TokenStream) -> (r: Result<Ast, ParserError>)
    requires
        token_at(old(tokens).tokens@, old(tokens).pos as int) matches Some(Token::Number(_)),
    ensures
        final(tokens).tokens@ == old(tokens).tokens@,
        forall|g: PrecedenceTable, d: nat| outcome(r, final(tokens).pos) == #[trigger] parse_primary_spec(old(tokens).tokens@, old(tokens).pos as int, g, d),
        r is Ok ==> advances(old(tokens).tokens@, old(tokens).pos as int, final(tokens).pos as int),
{
    match tokens.next() {
        Some(Token::Number(bits)) => Ok(Ast::NumberExpr(bits)),
        _ => Err(ParserError::UnexpectedEOI),
    }
}

fn parse_identifier_expr(tokens: &mut TokenStream, table: &PrecedenceTable, budget: usize) -> (r: Result<Ast, ParserError>)
    requires
        token_at(old(tokens).tokens@, old(tokens).pos as int) matches Some(Token::Identifier(_)),
    ensures
        final(tokens).tokens@ == old(tokens).tokens@,
        outcome(r, final(tokens).pos) == parse_primary_spec(old(tokens).tokens@, old(tokens).pos as int, *table, budget as nat),
        r is Ok ==> advances(old(tokens).tokens@, old(tokens).pos as int, final(tokens).pos as int),
    decreases old(tokens).tokens@.len() - old(tokens).pos, 0int,
{
    let ghost t = tokens.tokens@;
    let ghost p0 = tokens.pos as int;
    let name = match tokens.next() {
        Some(Token::Identifier(name)) => name,
        _ => return Err(ParserError::UnexpectedEOI),
    };
    match tokens.peek() {
        Some(Token::OpenParen) => {},
        _ => return Ok(Ast::VariableExpr { name }),
    }
    if budget == 0 {
        return Err(ParserError::NestingTooDeep);
    }
    let inner = budget - 1;
    tokens.next();
    let mut args: Vec<Ast> = Vec::new();
    loop
        invariant
            t == old(tokens).tokens@,
            p0 == old(tokens).pos,
            tokens.tokens@ == t,
            p0 + 2 <= tokens.pos <= t.len(),
            token_at(t, p0) == Some(Token::Identifier(name)),
            token_at(t, p0 + 1) == Some(Token::OpenParen),
            budget > 0,
            inner == budget - 1,
            parse_args_spec(t, tokens.pos as int, views(args@), *table, inner as nat)
                == parse_args_spec(t, p0 + 2, Seq::empty(), *table, inner as nat),
        ensures
            tokens.tokens@ == t,
            p0 + 2 <= tokens.pos < t.len(),
            token_at(t, tokens.pos as int) == Some(Token::ClosedParen),
            parse_args_spec(t, tokens.pos as int, views(args@), *table, inner as nat)
                == parse_args_spec(t, p0 + 2, Seq::empty(), *table, inner as nat),
        decreases t.len() - tokens.pos,
    {
        if let Some(Token::ClosedParen) = tokens.peek() {
            break;
        }
        let ghost before = tokens.pos as int;
        let arg = match parse_expression_with(tokens, table, inner) {
            Ok(a) => a,
            Err(e) => {
                proof {
                    assert(parse_args_spec(t, before, views(args@), *table, inner as nat)
                        == Err::<(Seq<Expr>, int), Failure>(e@));
                }
                return Err(e);
            },
        };
        let ghost old_args = args;
        proof {
            lemma_views_push(args@, arg);
        }
        args.push(arg);
        match tokens.peek() {
            Some(Token::Comma) => {
                tokens.next();
            },
            Some(Token::ClosedParen) => {},
            _ => {
                proof {
                    assert(parse_args_spec(t, before, views(old_args@), *table, inner as nat)
                        == Err::<(Seq<Expr>, int), Failure>(Failure::ExpectedToken(TokenModel::ClosedParen)));
                }
                return Err(ParserError::ExpectedToken(Token::ClosedParen));
            },
        }
    }
    tokens.next();
    Ok(Ast::CallExpr { name, args })
}

fn parse_paren_expr(tokens: &mut TokenStream, table: &PrecedenceTable, budget: usize) -> (r: Result<Ast, ParserError>)
    requires
        token_at(old(tokens).tokens@, old(tokens).pos as int) == Some(Token::OpenParen),
    ensures
        final(tokens).tokens@ == old(tokens).tokens@,
        outcome(r, final(tokens).pos) == parse_primary_spec(old(tokens).tokens@, old(tokens).pos as int, *table, budget as nat),
        r is Ok ==> advances(old(tokens).tokens@, old(tokens).pos as int, final(tokens).pos as int),
    decreases old(tokens).tokens@.len() - old(tokens).pos, 0int,
{
    if budget == 0 {
        return Err(ParserError::NestingTooDeep);
    }
    tokens.next();
    let expr = match parse_expression_with(tokens, table, budget - 1) {
        Ok(e) => e,
        Err(e) => return Err(e),
    };
    match tokens.next() {
        Some(Token::ClosedParen) => Ok(expr),
        _ => Err(ParserError::ExpectedToken(Token::ClosedParen)),
    }
}

/// `parse_expression` with the binding strengths of `table` and `budget` further levels of nesting allowed.
pub fn parse_expression_with(tokens: &mut TokenStream, table: &PrecedenceTable, budget: usize) -> (r: Result<Ast, ParserError>)
    ensures
        final(tokens).tokens@ == old(tokens).tokens@,
        outcome(r, final(tokens).pos) == parse_expression_spec(old(tokens).tokens@, old(tokens).pos as int, *table, budget as nat),
        r is Ok ==> advances(old(tokens).tokens@, old(tokens).pos as int, final(tokens).pos as int),
    decreases old(tokens).tokens@.len() - old(tokens).pos, 2int,
{
    let lhs = match parse_primary_with(tokens, table, budget) {
        Ok(a) => a,
        Err(e) => return Err(e),
    };
    parse_binop_rhs_with(tokens, lhs, 0, table, budget)
}

/// `parse_binop_rhs` with the binding strengths of `table` and `budget` further levels of nesting allowed.
pub fn parse_binop_rhs_with(tokens: &mut TokenStream, lhs: Ast, expr_prec: i32, table: &PrecedenceTable, budget: usize) -> (r: Result<Ast, ParserError>)
    ensures
        final(tokens).tokens@ == old(tokens).tokens@,
        outcome(r, final(tokens).pos) == parse_binop_rhs_spec(
            old(tokens).tokens@,
            old(tokens).pos as int,
            lhs@,
            expr_prec as int,
            *table,
            budget as nat,
        ),
        r is Ok ==> old(tokens).pos <= final(tokens).pos < final(tokens).tokens@.len(),
    decreases old(tokens).tokens@.len() - old(tokens).pos, 0int,
{
    let ghost t = tokens.tokens@;
    let ghost p0 = tokens.pos as int;
    let ghost lhs0 = lhs@;
    let mut folded = lhs;
    loop
        invariant
            t == old(tokens).tokens@,
            p0 == old(tokens).pos,
            lhs0 == lhs@,
            tokens.tokens@ == t,
            p0 <= tokens.pos,
            parse_binop_rhs_spec(t, tokens.pos as int, folded@, expr_prec as int, *table, budget as nat)
                == parse_binop_rhs_spec(t, p0, lhs0, expr_prec as int, *table, budget as nat),
        decreases t.len() - tokens.pos,
    {
        let (op, tok_prec) = match tokens.peek() {
            Some(tok) => match tok {
                Token::Operator(op) => (*op, get_operator_precedence(table, tok)),
                _ => return Ok(folded),
            },
            None => return Err(ParserError::UnexpectedEOI),
        };
        if tok_prec < 0 || tok_prec < expr_prec {
            return Ok(folded);
        }
        tokens.next();
        let rhs = match parse_primary_with(tokens, table, budget) {
            Ok(a) => a,
            Err(e) => return Err(e),
        };
        let next_prec = match tokens.peek() {
            Some(tok) => get_operator_precedence(table, tok),
            None => -1,
        };
        let rhs = if tok_prec < next_prec {
            match parse_binop_rhs_with(tokens, rhs, tok_prec + 1, table, budget) {
                Ok(a) => a,
                Err(e) => return Err(e),
            }
        } else {
            rhs
        };
        folded = Ast::BinaryExpr { op, left: Box::new(folded), right: Box::new(rhs) };
    }
}

/// Parses an external declaration: a keyword, then a prototype.
pub fn parse_extern(tokens: &mut TokenStream) -> (r: Result<Prototype, ParserError>)
    ensures
        final(tokens).tokens@ == old(tokens).tokens@,
        proto_outcome(r, final(tokens).pos) == parse_extern_spec(old(tokens).tokens@, old(tokens).pos as int),
{
    let _keyword = tokens.next();
    parse_prototype(tokens)
}

/// Parses a prototype: a name and a parenthesised list of parameter names.
pub fn parse_prototype(tokens: &mut TokenStream) -> (r: Result<Prototype, ParserError>)
    ensures
        final(tokens).tokens@ == old(tokens).tokens@,
        proto_outcome(r, final(tokens).pos) == parse_prototype_spec(old(tokens).tokens@, old(tokens).pos as int),
        r is Ok ==> final(tokens).pos <= final(tokens).tokens@.len(),
{
    let ghost t = tokens.tokens@;
    let ghost p0 = tokens.pos as int;
    let name = match tokens.next() {
        Some(Token::Identifier(name)) => name,
        _ => return Err(ParserError::ExpectedToken(Token::Identifier(String::new()))),
    };
    match tokens.next() {
        Some(Token::OpenParen) => {},
        _ => return Err(ParserError::ExpectedToken(Token::OpenParen)),
    }
    let mut args: Vec<String> = Vec::new();
    loop
        invariant
            tokens.tokens@ == t,
            tokens.pos == p0 + 2 + args@.len(),
            tokens.pos <= t.len(),
            args@.map_values(|a: String| a@) + param_run(t, tokens.pos as int) == param_run(t, p0 + 2),
        ensures
            tokens.tokens@ == t,
            tokens.pos == p0 + 2 + args@.len(),
            tokens.pos <= t.len(),
            param_run(t, tokens.pos as int) == Seq::<Seq<char>>::empty(),
            args@.map_values(|a: String| a@) == param_run(t, p0 + 2),
        decreases t.len() - tokens.pos,
    {
        let arg = match tokens.peek() {
            Some(Token::Identifier(s)) => s.clone(),
            _ => {
                proof {
                    assert(args@.map_values(|a: String| a@) + param_run(t, tokens.pos as int) =~= args@.map_values(|a: String| a@));
                }
                break;
            },
        };
        let ghost old_args = args@;
        args.push(arg);
        tokens.next();
        proof {
            assert(args@.map_values(|a: String| a@) + param_run(t, tokens.pos as int)
                =~= old_args.map_values(|a: String| a@) + param_run(t, tokens.pos - 1));
        }
    }
    match tokens.next() {
        Some(Token::ClosedParen) => Ok(Prototype { name, args }),
        _ => Err(ParserError::ExpectedToken(Token::ClosedParen)),
    }
}

/// Parses a function definition: a keyword, a prototype and a body.
pub fn parse_definition(tokens: &mut TokenStream) -> (r: Result<Function, ParserError>)
    ensures
        final(tokens).tokens@ == old(tokens).tokens@,
        function_outcome(r, final(tokens).pos) == parse_definition_spec(old(tokens).tokens@, old(tokens).pos as int),
{
    let _def = tokens.next();
    let proto = match parse_prototype(tokens) {
        Ok(p) => p,
        Err(e) => return Err(e),
    };
    let body = match parse_expression(tokens) {
        Ok(b) => b,
        Err(e) => return Err(e),
    };
    Ok(Function { proto, body })
}

/// Parses a top-level expression and wraps it in an anonymous function
/// without parameters.
pub fn parse_top_level_expr(tokens: &mut TokenStream) -> (r: Result<Function, ParserError>)
    ensures
        final(tokens).tokens@ == old(tokens).tokens@,
        function_outcome(r, final(tokens).pos) == parse_top_level_spec(old(tokens).tokens@, old(tokens).pos as int),
{
    let body = match parse_expression(tokens) {
        Ok(b) => b,
        Err(e) => return Err(e),
    };
    let proto = Prototype { name: "<anonymous>".to_string(), args: Vec::new() };
    proof {
        assert(proto.args@.map_values(|a: String| a@) =~= Seq::<Seq<char>>::empty());
    }
    Ok(Function { proto, body })
}

} // verus!
