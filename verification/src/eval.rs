//! The tree-walking evaluator: a direct execution mode for the surface
//! syntax, separate from the compiled-artifact pipeline.
//!
//! Environments form an arena of frames addressed by stable indices, with
//! parent links stored as indices; a closure captures the index of its
//! defining frame.  Evaluation spends a unit of fuel per step, so it
//! always terminates; the budget is far beyond what any program that fits
//! in memory can reach.  On the closed arithmetic subset (operators over
//! integer literals) the result is pinned exactly: it is the wrapping
//! 64-bit evaluation of the expression tree.

use vstd::prelude::*;

use crate::ast::{Expr, Program, Stmt};
use crate::num::{parse_i64, spec_parse_i64};

verus! {

broadcast use vstd::seq::axiom_seq_index_decreases, vstd::std_specs::vec::axiom_vec_index_decreases, vstd::std_specs::vec::axiom_vec_decreases_to_view;

/// A runtime value: an integer, a string, nothing, or a closure holding
/// the index of the frame it was made in.
#[derive(Clone, Debug)]
pub enum Object {
    Int { value: i64 },
    String { value: Vec<char> },
    Nil,
    Lambda { params: Vec<String>, body: Expr, env: usize },
}

/// Failure of evaluation.
#[derive(Clone, Copy, Debug, PartialEq, Eq, Structural)]
pub enum EvalError {
    /// An operand of an arithmetic operator is not an integer.
    TypeMismatch,
    /// A call whose argument count differs from the parameter count.
    ArgumentsError,
    /// A call whose callee is not a lambda.
    NotAFunction,
    /// An identifier bound nowhere on the frame chain.
    IdentNotFound,
    /// An integer literal that is not a decimal 64-bit integer.
    MalformedIntLit,
    /// A string literal without its quotes, or holding an escape.
    MalformedStringLit,
    /// A statement the evaluator does not execute (a definition or a
    /// `let`).
    UnsupportedStmt,
    /// A closure whose frame index lies outside the arena; unreachable
    /// through this interface, since frames are never removed.
    InvalidEnvironment,
    /// The evaluation budget ran out.
    OutOfFuel,
}

/// The wrapping 64-bit value of a closed arithmetic expression: operators
/// over integer literals only.
pub open spec fn ast_arith_val(e: Expr) -> Option<i64>
    decreases e,
{
    match e {
        Expr::BinOp { op, lhs, rhs } => match (ast_arith_val(*lhs), ast_arith_val(*rhs)) {
            (Some(a), Some(b)) => Some(
                match op {
                    crate::ast::BinOp::Add => vstd::wrapping::i64_specs::wrapping_add(a, b),
                    crate::ast::BinOp::Sub => vstd::wrapping::i64_specs::wrapping_sub(a, b),
                    crate::ast::BinOp::Mul => vstd::wrapping::i64_specs::wrapping_mul(a, b),
                },
            ),
            _ => None,
        },
        Expr::IntLit(raw) => spec_parse_i64(raw@),
        _ => None,
    }
}

/// The number of evaluation steps a closed arithmetic expression takes.
pub open spec fn arith_size(e: Expr) -> nat
    decreases e,
{
    match e {
        Expr::BinOp { op, lhs, rhs } => 1 + arith_size(*lhs) + arith_size(*rhs),
        _ => 1,
    }
}

/// Whether every statement of a program is a closed arithmetic
/// expression statement small enough for the evaluation budget (any
/// expression that fits in memory is far below the bound).
pub open spec fn closed_arith_program(stmts: Seq<Stmt>) -> bool {
    &&& stmts.len() >= 1
    &&& forall|j: int|
        0 <= j < stmts.len() ==> match #[trigger] stmts[j] {
            Stmt::Expr(e) => ast_arith_val(e) is Some && arith_size(e)
                <= 0xffff_ffff_ffff_ffff,
            _ => false,
        }
}

/// The value of the last statement of a closed arithmetic program.
pub open spec fn last_arith_val(stmts: Seq<Stmt>) -> i64 {
    match stmts.last() {
        Stmt::Expr(e) => ast_arith_val(e)->Some_0,
        _ => vstd::pervasive::arbitrary(),
    }
}

/// Whether the body of a string literal is plain: no escape and no inner
/// quote.
pub open spec fn plain_lit_chars(s: Seq<char>) -> bool {
    forall|i: int| 1 <= i < s.len() - 1 ==> #[trigger] s[i] != '\\' && s[i] != '"'
}

/// The contents of a string literal: the characters between its quotes,
/// or nothing when the quotes are missing or an escape appears.
pub open spec fn string_lit_val(s: Seq<char>) -> Option<Seq<char>> {
    if s.len() >= 2 && s[0] == '"' && s[s.len() - 1] == '"' && plain_lit_chars(s) {
        Some(s.subrange(1, s.len() - 1))
    } else {
        None
    }
}

/// One environment frame: its parent, and its bindings in insertion
/// order (the latest binding of a name wins).
struct Frame {
    outer: Option<usize>,
    store: Vec<(String, Object)>,
}

/// The evaluation budget of one call.
const EVAL_FUEL: u64 = 0xffff_ffff_ffff_ffff;

/// An environment arena: frame zero is the global frame; child frames
/// point to their parent by index, so parents always precede children.
pub struct Env {
    frames: Vec<Frame>,
}

impl Env {
    /// Frames form an arena: there is a global frame, and every parent
    /// link points strictly backwards.
    pub closed spec fn wf(&self) -> bool {
        &&& self.frames@.len() >= 1
        &&& forall|i: int|
            0 <= i < self.frames@.len() ==> match (#[trigger] self.frames@[i]).outer {
                Some(o) => o < i,
                None => true,
            }
    }

    /// A fresh environment holding one empty global frame.
    pub fn new() -> (r: Self)
        ensures
            r.wf(),
    {
        let mut frames: Vec<Frame> = Vec::new();
        frames.push(Frame { outer: None, store: Vec::new() });
        Env { frames }
    }

    /// Allocate a child frame of the given frame.
    fn inherit_from(&mut self, outer: usize) -> (r: usize)
        requires
            old(self).wf(),
            outer < old(self).frames@.len(),
        ensures
            final(self).wf(),
            final(self).frames@.len() == old(self).frames@.len() + 1,
            r < final(self).frames@.len(),
    {
        let idx = self.frames.len();
        self.frames.push(Frame { outer: Some(outer), store: Vec::new() });
        idx
    }

    /// Look a name up, in the given frame first, then along the parent
    /// chain.
    fn get(&self, frame: usize, name: &String) -> (r: Option<Object>)
        requires
            self.wf(),
            frame < self.frames@.len(),
    {
        let mut cur = frame;
        loop
            invariant
                self.wf(),
                cur < self.frames@.len(),
            decreases cur,
        {
            let store = &self.frames[cur].store;
            let mut k = store.len();
            while k > 0
                invariant
                    k <= store@.len(),
                decreases k,
            {
                k = k - 1;
                if store[k].0 == *name {
                    return Some(store[k].1.clone());
                }
            }
            match self.frames[cur].outer {
                Some(o) => {
                    cur = o;
                },
                None => {
                    return None;
                },
            }
        }
    }

    /// Bind a name in the given frame, returning what the frame itself
    /// bound before, if anything.
    fn set(&mut self, frame: usize, name: String, value: Object) -> (r: Option<Object>)
        requires
            old(self).wf(),
            frame < old(self).frames@.len(),
        ensures
            final(self).wf(),
            final(self).frames@.len() == old(self).frames@.len(),
    {
        let store = &self.frames[frame].store;
        let mut prev: Option<Object> = None;
        let mut k = store.len();
        while k > 0
            invariant
                k <= store@.len(),
            decreases k,
        {
            k = k - 1;
            if store[k].0 == name {
                prev = Some(store[k].1.clone());
                break ;
            }
        }
        self.frames[frame].store.push((name, value));
        proof {
            assert(final(self).frames@[frame as int].outer == old(self).frames@[
                frame as int].outer);
            assert(forall|i: int|
                0 <= i < final(self).frames@.len() && i != frame ==> final(self).frames@[i] == old(
                    self,
                ).frames@[i]);
        }
        prev
    }

    /// Evaluate a program: its statements in order, yielding the last
    /// value (or `Nil` for an empty program).  Only expression statements
    /// evaluate.  On a closed arithmetic program the result is exactly
    /// the wrapping 64-bit value of the last expression.
    #[verifier::loop_isolation(false)]
    pub fn eval(&mut self, program: &Program) -> (r: Result<Object, EvalError>)
        requires
            old(self).wf(),
        ensures
            final(self).wf(),
            program.statements@.len() == 0 ==> (r matches Ok(o) && o is Nil),
            closed_arith_program(program.statements@) ==> (r matches Ok(o) && o == (Object::Int {
                value: last_arith_val(program.statements@),
            })),
    {
        let mut last = Object::Nil;
        let n = program.statements.len();
        for i in 0..n
            invariant
                self.wf(),
                closed_arith_program(program.statements@) ==> *self == *old(self) && (i > 0
                    ==> last == (Object::Int {
                    value: (match program.statements@[i - 1] {
                        Stmt::Expr(e) => ast_arith_val(e)->Some_0,
                        _ => vstd::pervasive::arbitrary(),
                    }),
                })),
                i == 0 ==> last is Nil,
        {
            match &program.statements[i] {
                Stmt::Expr(e) => {
                    last = self.eval_expr(e, 0, EVAL_FUEL)?;
                },
                _ => {
                    return Err(EvalError::UnsupportedStmt);
                },
            }
        }
        Ok(last)
    }

    /// Evaluate one expression in the given frame.  On a closed
    /// arithmetic expression within the budget the result is exactly its
    /// wrapping 64-bit value and the environment is untouched.
    fn eval_expr(&mut self, node: &Expr, env_idx: usize, fuel: u64) -> (r: Result<
        Object,
        EvalError,
    >)
        requires
            old(self).wf(),
            env_idx < old(self).frames@.len(),
        ensures
            final(self).wf(),
            old(self).frames@.len() <= final(self).frames@.len(),
            (ast_arith_val(*node) is Some && fuel as nat >= arith_size(*node)) ==> (r
                == Result::<Object, EvalError>::Ok(
                Object::Int { value: ast_arith_val(*node)->Some_0 },
            ) && *final(self) == *old(self)),
        decreases fuel, 1int,
    {
        if fuel == 0 {
            return Err(EvalError::OutOfFuel);
        }
        match node {
            Expr::BinOp { op, lhs, rhs } => self.eval_infix_expr(op, lhs, rhs, env_idx, fuel),
            Expr::Assign { lhs, rhs } => self.eval_assignment_expr(lhs, rhs, env_idx, fuel),
            Expr::Lambda { params, body } => self.eval_lambda_expr(params, body, env_idx),
            Expr::Call { callee, args } => self.eval_call_expr(callee, args, env_idx, fuel),
            Expr::Ident(name) => self.eval_ident(name, env_idx),
            Expr::IntLit(raw) => self.eval_int_literal(raw),
            Expr::StringLit(raw) => self.eval_string_literal(raw),
        }
    }

    /// Evaluate an arithmetic operator: both operands left to right, then
    /// the wrapping 64-bit operation; a non-integer operand is a type
    /// mismatch.
    fn eval_infix_expr(
        &mut self,
        op: &crate::ast::BinOp,
        lhs: &Expr,
        rhs: &Expr,
        env_idx: usize,
        fuel: u64,
    ) -> (r: Result<Object, EvalError>)
        requires
            old(self).wf(),
            env_idx < old(self).frames@.len(),
            fuel >= 1,
        ensures
            final(self).wf(),
            old(self).frames@.len() <= final(self).frames@.len(),
            (ast_arith_val(*lhs) is Some && ast_arith_val(*rhs) is Some && fuel as nat
                > arith_size(*lhs) + arith_size(*rhs)) ==> (r == Result::<Object, EvalError>::Ok(
                Object::Int {
                    value: (match *op {
                        crate::ast::BinOp::Add => vstd::wrapping::i64_specs::wrapping_add(
                            ast_arith_val(*lhs)->Some_0,
                            ast_arith_val(*rhs)->Some_0,
                        ),
                        crate::ast::BinOp::Sub => vstd::wrapping::i64_specs::wrapping_sub(
                            ast_arith_val(*lhs)->Some_0,
                            ast_arith_val(*rhs)->Some_0,
                        ),
                        crate::ast::BinOp::Mul => vstd::wrapping::i64_specs::wrapping_mul(
                            ast_arith_val(*lhs)->Some_0,
                            ast_arith_val(*rhs)->Some_0,
                        ),
                    }),
                },
            ) && *final(self) == *old(self)),
        decreases fuel, 0int,
    {
        let left = self.eval_expr(lhs, env_idx, fuel - 1)?;
        let right = self.eval_expr(rhs, env_idx, fuel - 1)?;
        let left_value = match left {
            Object::Int { value } => value,
            _ => {
                return Err(EvalError::TypeMismatch);
            },
        };
        let right_value = match right {
            Object::Int { value } => value,
            _ => {
                return Err(EvalError::TypeMismatch);
            },
        };
        Ok(
            Object::Int {
                value: match op {
                    crate::ast::BinOp::Add => left_value.wrapping_add(right_value),
                    crate::ast::BinOp::Sub => left_value.wrapping_sub(right_value),
                    crate::ast::BinOp::Mul => left_value.wrapping_mul(right_value),
                },
            },
        )
    }

    /// Evaluate an assignment: the right-hand side, bound to the name in
    /// the current frame; the value is also the result.
    fn eval_assignment_expr(&mut self, lhs: &String, rhs: &Expr, env_idx: usize, fuel: u64) -> (r:
        Result<Object, EvalError>)
        requires
            old(self).wf(),
            env_idx < old(self).frames@.len(),
            fuel >= 1,
        ensures
            final(self).wf(),
            old(self).frames@.len() <= final(self).frames@.len(),
        decreases fuel, 0int,
    {
        let value = self.eval_expr(rhs, env_idx, fuel - 1)?;
        let _ = self.set(env_idx, lhs.clone(), value.clone());
        Ok(value)
    }

    /// Evaluate a lambda: a closure capturing the current frame.
    fn eval_lambda_expr(&mut self, params: &Vec<String>, body: &Expr, env_idx: usize) -> (r: Result<
        Object,
        EvalError,
    >)
        requires
            old(self).wf(),
            env_idx < old(self).frames@.len(),
        ensures
            final(self).wf(),
            old(self).frames@.len() <= final(self).frames@.len(),
    {
        Ok(Object::Lambda { params: params.clone(), body: body.clone(), env: env_idx })
    }

    /// Evaluate a call: the callee must be a lambda with as many
    /// parameters as there are arguments; the arguments evaluate in the
    /// caller's frame and bind into a fresh child of the lambda's frame,
    /// where the body then evaluates.
    fn eval_call_expr(&mut self, callee: &Expr, args: &Vec<Expr>, env_idx: usize, fuel: u64) -> (r:
        Result<Object, EvalError>)
        requires
            old(self).wf(),
            env_idx < old(self).frames@.len(),
            fuel >= 1,
        ensures
            final(self).wf(),
            old(self).frames@.len() <= final(self).frames@.len(),
        decreases fuel, 0int,
    {
        let callee_value = self.eval_expr(callee, env_idx, fuel - 1)?;
        match callee_value {
            Object::Lambda { params, body, env } => {
                if params.len() != args.len() {
                    return Err(EvalError::ArgumentsError);
                }
                if !(env < self.frames.len()) {
                    return Err(EvalError::InvalidEnvironment);
                }
                let child = self.inherit_from(env);
                let n = args.len();
                for i in 0..n
                    invariant
                        self.wf(),
                        old(self).frames@.len() <= self.frames@.len(),
                        child < self.frames@.len(),
                        env_idx < self.frames@.len(),
                        n == args@.len(),
                        n == params@.len(),
                        fuel >= 1,
                    decreases n - i,
                {
                    let arg = self.eval_expr(&args[i], env_idx, fuel - 1)?;
                    let _ = self.set(child, params[i].clone(), arg);
                }
                self.eval_expr(&body, child, fuel - 1)
            },
            _ => Err(EvalError::NotAFunction),
        }
    }

    /// Evaluate an identifier: the nearest binding along the frame
    /// chain.
    fn eval_ident(&mut self, name: &String, env_idx: usize) -> (r: Result<Object, EvalError>)
        requires
            old(self).wf(),
            env_idx < old(self).frames@.len(),
        ensures
            final(self).wf(),
            *final(self) == *old(self),
    {
        match self.get(env_idx, name) {
            Some(value) => Ok(value),
            None => Err(EvalError::IdentNotFound),
        }
    }

    /// Evaluate an integer literal: its decimal 64-bit reading.
    fn eval_int_literal(&mut self, raw: &String) -> (r: Result<Object, EvalError>)
        requires
            old(self).wf(),
        ensures
            final(self).wf(),
            *final(self) == *old(self),
            r == (match spec_parse_i64(raw@) {
                Some(v) => Result::<Object, EvalError>::Ok(Object::Int { value: v }),
                None => Result::<Object, EvalError>::Err(EvalError::MalformedIntLit),
            }),
    {
        match parse_i64(raw.as_str()) {
            Some(value) => Ok(Object::Int { value }),
            None => Err(EvalError::MalformedIntLit),
        }
    }

    /// Evaluate a string literal: the characters between its quotes.
    #[verifier::loop_isolation(false)]
    fn eval_string_literal(&mut self, raw: &String) -> (r: Result<Object, EvalError>)
        requires
            old(self).wf(),
        ensures
            final(self).wf(),
            *final(self) == *old(self),
            string_lit_val(raw@) matches Some(cs) ==> r matches Ok(o) && o matches Object::String {
                value,
            } && value@ == cs,
            string_lit_val(raw@) is None ==> r == Result::<Object, EvalError>::Err(
                EvalError::MalformedStringLit,
            ),
    {
        let s = raw.as_str();
        let len = s.unicode_len();
        if !(len >= 2 && s.get_char(0) == '"' && s.get_char(len - 1) == '"') {
            return Err(EvalError::MalformedStringLit);
        }
        let mut value: Vec<char> = Vec::new();
        let ghost cs = raw@;
        proof {
            assert(value@ =~= cs.subrange(1, 1));
        }
        for i in 1..len - 1
            invariant
                len == cs.len(),
                raw@ == cs,
                value@ == cs.subrange(1, i as int),
                forall|j: int| 1 <= j < i ==> #[trigger] cs[j] != '\\' && cs[j] != '"',
        {
            let c = s.get_char(i);
            if c == '\\' || c == '"' {
                proof {
                    assert(!plain_lit_chars(cs));
                }
                return Err(EvalError::MalformedStringLit);
            }
            value.push(c);
            proof {
                assert(value@ =~= cs.subrange(1, i + 1));
            }
        }
        proof {
            assert(plain_lit_chars(cs));
            assert(value@ =~= cs.subrange(1, cs.len() - 1));
        }
        Ok(Object::String { value })
    }
}

/// On the closed arithmetic subset the evaluator and the compiler agree:
/// a surface expression's wrapping 64-bit evaluation equals the
/// mathematical evaluation of its lowering, whenever every intermediate
/// value stays within the signed 32-bit range.  Together with the
/// compiled-code theorem of the code generator, this closes the round
/// trip: direct evaluation and execution of the compiled form return the
/// same value.
pub proof fn lemma_eval_matches_compiled_semantics(ae: Expr, ie: crate::ir::Expr)
    requires
        crate::ast_to_ir::lowers_to_expr(ae, ie),
        crate::codegen::expr_in_bounds(ie, Seq::empty(), Seq::empty()),
    ensures
        crate::codegen::eval_expr_int(ie, Seq::empty(), Seq::empty()) is Some,
        ast_arith_val(ae) == Some(
            (crate::codegen::eval_expr_int(ie, Seq::empty(), Seq::empty())->Some_0) as i64,
        ),
    decreases ae,
{
    let names = Seq::<Seq<char>>::empty();
    let iargs = Seq::<int>::empty();
    match ae {
        Expr::BinOp { op, lhs, rhs } => {
            match ie {
                crate::ir::Expr::BinOp { op: iop, lhs: ilhs, rhs: irhs } => {
                    lemma_eval_matches_compiled_semantics(*lhs, *ilhs);
                    lemma_eval_matches_compiled_semantics(*rhs, *irhs);
                    let a = crate::codegen::eval_expr_int(*ilhs, names, iargs)->Some_0;
                    let b = crate::codegen::eval_expr_int(*irhs, names, iargs)->Some_0;
                    let v = crate::codegen::eval_expr_int(ie, names, iargs)->Some_0;
                    assert(crate::codegen::expr_in_bounds(*ilhs, names, iargs));
                    assert(crate::codegen::expr_in_bounds(*irhs, names, iargs));
                    assert(i32::MIN <= a <= i32::MAX);
                    assert(i32::MIN <= b <= i32::MAX);
                    assert(i32::MIN <= v <= i32::MAX);
                    assert(ast_arith_val(*lhs) == Some(a as i64));
                    assert(ast_arith_val(*rhs) == Some(b as i64));
                    match op {
                        crate::ast::BinOp::Add => {
                            assert(v == a + b);
                            assert(vstd::wrapping::i64_specs::wrapping_add(a as i64, b as i64)
                                == v as i64);
                        },
                        crate::ast::BinOp::Sub => {
                            assert(v == a - b);
                            assert(vstd::wrapping::i64_specs::wrapping_sub(a as i64, b as i64)
                                == v as i64);
                        },
                        crate::ast::BinOp::Mul => {
                            assert(v == a * b);
                            assert(vstd::wrapping::i64_specs::wrapping_mul(a as i64, b as i64)
                                == v as i64);
                        },
                    }
                },
                _ => {},
            }
        },
        Expr::IntLit(raw) => {
            match ie {
                crate::ir::Expr::IntLit(iraw) => {
                    let v = crate::num::spec_parse_i32(iraw@)->Some_0;
                    assert(crate::num::spec_parse_int(raw@) == crate::num::spec_parse_int(iraw@));
                    assert(spec_parse_i64(raw@) == Some(v as i64));
                },
                _ => {},
            }
        },
        _ => {},
    }
}

} // verus!
