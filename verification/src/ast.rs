//! Surface abstract syntax, as produced by the parser: statements carry
//! their annotations and textual type names; literals keep their source
//! text (string literals keep their surrounding quotes).

use vstd::prelude::*;

verus! {

broadcast use vstd::seq::axiom_seq_index_decreases, vstd::std_specs::vec::axiom_vec_index_decreases, vstd::std_specs::vec::axiom_vec_decreases_to_view;

/// A parsed program: an ordered sequence of statements.
#[derive(Clone, Debug, PartialEq)]
pub struct Program {
    pub statements: Vec<Stmt>,
}

/// A statement: a function definition, a let binding or a bare
/// expression.
#[derive(Clone, Debug, PartialEq)]
pub enum Stmt {
    Def {
        annotations: Vec<Expr>,
        name: String,
        params: Vec<(String, String)>,
        return_type: String,
        body: Box<Expr>,
    },
    Let {
        name: String,
        type_: Option<String>,
        value: Box<Expr>,
    },
    Expr(Expr),
}

/// An expression tree.  Every node owns its children exclusively.
#[derive(Debug, PartialEq)]
pub enum Expr {
    BinOp {
        op: BinOp,
        lhs: Box<Expr>,
        rhs: Box<Expr>,
    },
    Assign {
        lhs: String,
        rhs: Box<Expr>,
    },
    Lambda {
        params: Vec<String>,
        body: Box<Expr>,
    },
    Call {
        callee: Box<Expr>,
        args: Vec<Expr>,
    },
    Ident(String),
    IntLit(String),
    StringLit(String),
}

/// A binary arithmetic operator.
#[derive(Clone, Copy, Debug, PartialEq, Eq, Structural)]
pub enum BinOp {
    Add,
    Sub,
    Mul,
}

impl Clone for Expr {
    /// A deep copy of the expression tree.
    #[verifier::loop_isolation(false)]
    fn clone(&self) -> (res: Self)
        decreases self,
    {
        match self {
            Expr::BinOp { op, lhs, rhs } => Expr::BinOp {
                op: *op,
                lhs: Box::new((**lhs).clone()),
                rhs: Box::new((**rhs).clone()),
            },
            Expr::Assign { lhs, rhs } => Expr::Assign {
                lhs: lhs.clone(),
                rhs: Box::new((**rhs).clone()),
            },
            Expr::Lambda { params, body } => Expr::Lambda {
                params: params.clone(),
                body: Box::new((**body).clone()),
            },
            Expr::Call { callee, args } => {
                let mut cloned_args: Vec<Expr> = Vec::new();
                let n = args.len();
                for i in 0..n
                    invariant
                        cloned_args@.len() == i,
                {
                    cloned_args.push(args[i].clone());
                }
                Expr::Call { callee: Box::new((**callee).clone()), args: cloned_args }
            },
            Expr::Ident(name) => Expr::Ident(name.clone()),
            Expr::IntLit(raw) => Expr::IntLit(raw.clone()),
            Expr::StringLit(raw) => Expr::StringLit(raw.clone()),
        }
    }
}

} // verus!
