//! The syntax tree built by the parser, and its mathematical model.
use vstd::prelude::*;
use crate::token::Op;

verus! {

broadcast use vstd::seq::group_seq_axioms, vstd::std_specs::vec::group_vec_axioms;

/// An expression node. Every node owns its children.
#[derive(PartialEq, Debug)]
pub enum Ast {
    /// A numeric literal, as the bits of its binary64 value.
    NumberExpr(u64),
    VariableExpr { name: String },
    BinaryExpr { op: Op, left: Box<Ast>, right: Box<Ast> },
    CallExpr { name: String, args: Vec<Ast> },
}

/// The model of an expression: names as character sequences.
pub enum Expr {
    Number(u64),
    Variable(Seq<char>),
    Binary(Op, Box<Expr>, Box<Expr>),
    Call(Seq<char>, Seq<Expr>),
}

/// A function signature: its name and its parameter names.
#[derive(PartialEq, Debug)]
pub struct Prototype {
    pub name: String,
    pub args: Vec<String>,
}

pub struct ProtoModel {
    pub name: Seq<char>,
    pub params: Seq<Seq<char>>,
}

/// A function definition: a signature and a body.
#[derive(PartialEq, Debug)]
pub struct Function {
    pub proto: Prototype,
    pub body: Ast,
}

pub struct FunctionModel {
    pub proto: ProtoModel,
    pub body: Expr,
}

impl Ast {
    pub open spec fn view(&self) -> Expr
        decreases self,
    {
        match self {
            Ast::NumberExpr(bits) => Expr::Number(*bits),
            Ast::VariableExpr { name } => Expr::Variable(name@),
            Ast::BinaryExpr { op, left, right } => Expr::Binary(
                *op,
                Box::new(left.view()),
                Box::new(right.view()),
            ),
            Ast::CallExpr { name, args } => Expr::Call(name@, views(args@)),
        }
    }
}

/// The models of a sequence of expressions, element by element.
pub open spec fn views(s: Seq<Ast>) -> Seq<Expr>
    decreases s,
{
    if s.len() == 0 {
        Seq::empty()
    } else {
        views(s.subrange(0, s.len() - 1)).push(s[s.len() - 1].view())
    }
}

pub proof fn lemma_views_push(s: Seq<Ast>, a: Ast)
    ensures
        views(s.push(a)) == views(s).push(a@),
{
    assert(s.push(a).subrange(0, s.len() as int) =~= s);
}

impl Prototype {
    pub open spec fn view(&self) -> ProtoModel {
        ProtoModel { name: self.name@, params: self.args@.map_values(|a: String| a@) }
    }
}

impl Function {
    pub open spec fn view(&self) -> FunctionModel {
        FunctionModel { proto: self.proto@, body: self.body@ }
    }
}

} // verus!
