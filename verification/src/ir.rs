//! The intermediate representation the backend compiles: the surface
//! syntax with textual type names replaced by structured `Type` values,
//! ready for resolution and code generation.

use vstd::prelude::*;

verus! {

/// An intermediate-representation program: an ordered sequence of
/// statements.
#[derive(Debug, PartialEq)]
pub struct Program {
    pub statements: Vec<Stmt>,
}

/// A statement of the intermediate representation.
#[derive(Debug, PartialEq)]
pub enum Stmt {
    Def {
        annotations: Vec<Expr>,
        name: String,
        params: Vec<(String, Type)>,
        return_type: Type,
        body: Box<Expr>,
    },
    Let {
        name: String,
        type_: Type,
        value: Box<Expr>,
    },
    Expr(Expr),
}

/// An expression tree of the intermediate representation.
#[derive(Debug, PartialEq)]
pub enum Expr {
    BinOp {
        op: BinOp,
        lhs: Box<Expr>,
        rhs: Box<Expr>,
    },
    Assign {
        lhs: String,
        rhs: Box<Expr>,
    },
    Lambda {
        params: Vec<String>,
        body: Box<Expr>,
    },
    Call {
        callee: Box<Expr>,
        args: Vec<Expr>,
    },
    Ident(String),
    IntLit(String),
    StringLit(String),
}

/// A type: either still a syntactic name, or one of the resolved forms.
/// After resolution, every type reachable from a definition's parameters
/// and return type is either `Int` or remains `Unresolved`.
#[derive(Debug, PartialEq)]
pub enum Type {
    Unresolved(String),
    Untyped,
    Unit,
    Int,
}

/// A binary arithmetic operator.
#[derive(Clone, Copy, Debug, PartialEq, Eq, Structural)]
pub enum BinOp {
    Add,
    Sub,
    Mul,
}

impl Clone for Type {
    /// A clone of a type is the same type.
    fn clone(&self) -> (res: Self)
        ensures
            res == *self,
    {
        match self {
            Type::Unresolved(name) => Type::Unresolved(name.clone()),
            Type::Untyped => Type::Untyped,
            Type::Unit => Type::Unit,
            Type::Int => Type::Int,
        }
    }
}

} // verus!
