//! Lowering from the surface syntax to the intermediate representation:
//! textual type names become `Type::Unresolved` values, everything else
//! carries over structurally.

use vstd::prelude::*;

use crate::ast;
use crate::ir;

verus! {

broadcast use vstd::seq::axiom_seq_index_decreases, vstd::std_specs::vec::axiom_vec_index_decreases, vstd::std_specs::vec::axiom_vec_decreases_to_view;

/// The operator an operator lowers to.
pub open spec fn lower_binop(o: ast::BinOp) -> ir::BinOp {
    match o {
        ast::BinOp::Add => ir::BinOp::Add,
        ast::BinOp::Sub => ir::BinOp::Sub,
        ast::BinOp::Mul => ir::BinOp::Mul,
    }
}

/// Whether an intermediate-representation expression is the lowering of
/// a surface expression.
pub open spec fn lowers_to_expr(a: ast::Expr, e: ir::Expr) -> bool
    decreases a,
{
    match (a, e) {
        (
            ast::Expr::BinOp { op: aop, lhs: alhs, rhs: arhs },
            ir::Expr::BinOp { op, lhs, rhs },
        ) => op == lower_binop(aop) && lowers_to_expr(*alhs, *lhs) && lowers_to_expr(*arhs, *rhs),
        (ast::Expr::Assign { lhs: alhs, rhs: arhs }, ir::Expr::Assign { lhs, rhs }) => lhs@
            == alhs@ && lowers_to_expr(*arhs, *rhs),
        (ast::Expr::Lambda { params: aparams, body: abody }, ir::Expr::Lambda { params, body }) => {
            &&& params@.len() == aparams@.len()
            &&& forall|i: int|
                0 <= i < params@.len() ==> (#[trigger] params@[i])@ == aparams@[i]@
            &&& lowers_to_expr(*abody, *body)
        },
        (ast::Expr::Call { callee: acallee, args: aargs }, ir::Expr::Call { callee, args }) => {
            &&& lowers_to_expr(*acallee, *callee)
            &&& args@.len() == aargs@.len()
            &&& forall|i: int|
                0 <= i < args@.len() ==> lowers_to_expr(#[trigger] aargs@[i], args@[i])
        },
        (ast::Expr::Ident(aname), ir::Expr::Ident(name)) => name@ == aname@,
        (ast::Expr::IntLit(araw), ir::Expr::IntLit(raw)) => raw@ == araw@,
        (ast::Expr::StringLit(araw), ir::Expr::StringLit(raw)) => raw@ == araw@,
        _ => false,
    }
}

/// Whether an intermediate-representation statement is the lowering of a
/// surface statement: annotations and bodies lower, parameter and return
/// type names become `Unresolved`, an untyped let binding becomes
/// `Untyped`.
pub open spec fn lowers_to_stmt(a: ast::Stmt, s: ir::Stmt) -> bool {
    match (a, s) {
        (
            ast::Stmt::Def {
                annotations: aann,
                name: aname,
                params: aparams,
                return_type: aret,
                body: abody,
            },
            ir::Stmt::Def { annotations, name, params, return_type, body },
        ) => {
            &&& annotations@.len() == aann@.len()
            &&& forall|i: int|
                0 <= i < annotations@.len() ==> lowers_to_expr(
                    #[trigger] aann@[i],
                    annotations@[i],
                )
            &&& name@ == aname@
            &&& params@.len() == aparams@.len()
            &&& forall|i: int|
                0 <= i < params@.len() ==> ((#[trigger] params@[i]).0@ == aparams@[i].0@
                    && (params@[i].1 matches ir::Type::Unresolved(n) && n@ == aparams@[i].1@))
            &&& return_type matches ir::Type::Unresolved(n) && n@ == aret@
            &&& lowers_to_expr(*abody, *body)
        },
        (
            ast::Stmt::Let { name: aname, type_: atype, value: avalue },
            ir::Stmt::Let { name, type_, value },
        ) => {
            &&& name@ == aname@
            &&& match atype {
                Some(t) => type_ matches ir::Type::Unresolved(n) && n@ == t@,
                None => type_ is Untyped,
            }
            &&& lowers_to_expr(*avalue, *value)
        },
        (ast::Stmt::Expr(ae), ir::Stmt::Expr(e)) => lowers_to_expr(ae, e),
        _ => false,
    }
}

/// Whether an intermediate-representation program is the lowering of a
/// surface program.
pub open spec fn lowers_to_program(a: ast::Program, p: ir::Program) -> bool {
    &&& p.statements@.len() == a.statements@.len()
    &&& forall|i: int|
        0 <= i < p.statements@.len() ==> lowers_to_stmt(
            #[trigger] a.statements@[i],
            p.statements@[i],
        )
}

impl From<ast::BinOp> for ir::BinOp {
    fn from(o: ast::BinOp) -> (r: ir::BinOp) {
        match o {
            ast::BinOp::Add => ir::BinOp::Add,
            ast::BinOp::Sub => ir::BinOp::Sub,
            ast::BinOp::Mul => ir::BinOp::Mul,
        }
    }
}

impl vstd::std_specs::convert::FromSpecImpl<ast::BinOp> for ir::BinOp {
    open spec fn obeys_from_spec() -> bool {
        true
    }

    open spec fn from_spec(o: ast::BinOp) -> ir::BinOp {
        lower_binop(o)
    }
}

/// Lower one surface expression.
#[verifier::loop_isolation(false)]
pub fn lower_expr(e: &ast::Expr) -> (r: ir::Expr)
    ensures
        lowers_to_expr(*e, r),
    decreases *e,
{
    match e {
        ast::Expr::BinOp { op, lhs, rhs } => ir::Expr::BinOp {
            op: ir::BinOp::from(*op),
            lhs: Box::new(lower_expr(lhs)),
            rhs: Box::new(lower_expr(rhs)),
        },
        ast::Expr::Assign { lhs, rhs } => ir::Expr::Assign {
            lhs: lhs.clone(),
            rhs: Box::new(lower_expr(rhs)),
        },
        ast::Expr::Lambda { params, body } => {
            let mut ps: Vec<String> = Vec::new();
            let n = params.len();
            for i in 0..n
                invariant
                    n == params@.len(),
                    ps@.len() == i,
                    forall|j: int| 0 <= j < i ==> (#[trigger] ps@[j])@ == params@[j]@,
            {
                ps.push(params[i].clone());
            }
            ir::Expr::Lambda { params: ps, body: Box::new(lower_expr(body)) }
        },
        ast::Expr::Call { callee, args } => {
            let mut ir_args: Vec<ir::Expr> = Vec::new();
            let n = args.len();
            for i in 0..n
                invariant
                    n == args@.len(),
                    ir_args@.len() == i,
                    forall|j: int| 0 <= j < i ==> lowers_to_expr(#[trigger] args@[j], ir_args@[j]),
            {
                ir_args.push(lower_expr(&args[i]));
            }
            ir::Expr::Call { callee: Box::new(lower_expr(callee)), args: ir_args }
        },
        ast::Expr::Ident(name) => ir::Expr::Ident(name.clone()),
        ast::Expr::IntLit(raw) => ir::Expr::IntLit(raw.clone()),
        ast::Expr::StringLit(raw) => ir::Expr::StringLit(raw.clone()),
    }
}

/// Lower one surface statement.
pub fn lower_stmt(s: &ast::Stmt) -> (r: ir::Stmt)
    ensures
        lowers_to_stmt(*s, r),
{
    match s {
        ast::Stmt::Def { annotations, name, params, return_type, body } => {
            let mut anns: Vec<ir::Expr> = Vec::new();
            let n = annotations.len();
            for i in 0..n
                invariant
                    n == annotations@.len(),
                    anns@.len() == i,
                    forall|j: int|
                        0 <= j < i ==> lowers_to_expr(#[trigger] annotations@[j], anns@[j]),
            {
                anns.push(lower_expr(&annotations[i]));
            }
            let mut ps: Vec<(String, ir::Type)> = Vec::new();
            let m = params.len();
            for i in 0..m
                invariant
                    m == params@.len(),
                    ps@.len() == i,
                    forall|j: int|
                        0 <= j < i ==> ((#[trigger] ps@[j]).0@ == params@[j].0@ && (ps@[j].1
                            matches ir::Type::Unresolved(t) && t@ == params@[j].1@)),
            {
                let (pname, ptype) = &params[i];
                ps.push((pname.clone(), ir::Type::Unresolved(ptype.clone())));
            }
            ir::Stmt::Def {
                annotations: anns,
                name: name.clone(),
                params: ps,
                return_type: ir::Type::Unresolved(return_type.clone()),
                body: Box::new(lower_expr(body)),
            }
        },
        ast::Stmt::Let { name, type_, value } => ir::Stmt::Let {
            name: name.clone(),
            type_: match type_ {
                Some(t) => ir::Type::Unresolved(t.clone()),
                None => ir::Type::Untyped,
            },
            value: Box::new(lower_expr(value)),
        },
        ast::Stmt::Expr(e) => ir::Stmt::Expr(lower_expr(e)),
    }
}

/// Lower a whole surface program.
pub fn lower_program(program: &ast::Program) -> (r: ir::Program)
    ensures
        lowers_to_program(*program, r),
{
    let mut statements: Vec<ir::Stmt> = Vec::new();
    let n = program.statements.len();
    for i in 0..n
        invariant
            n == program.statements@.len(),
            statements@.len() == i,
            forall|j: int|
                0 <= j < i ==> lowers_to_stmt(
                    #[trigger] program.statements@[j],
                    statements@[j],
                ),
    {
        statements.push(lower_stmt(&program.statements[i]));
    }
    ir::Program { statements }
}

} // verus!
