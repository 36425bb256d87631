//! The type resolver: rewrites syntactic type names on definitions into
//! concrete primitive types.  The one resolvable name is `Int`; every
//! other name is left unresolved, and failure is deliberately deferred to
//! the point of use during code generation.

use vstd::prelude::*;

use crate::ir::{Program, Stmt, Type};

verus! {

/// Failure of type resolution.  The current resolver never fails: an
/// unresolvable name is left in place and surfaces during code
/// generation.
#[derive(Clone, Copy, Debug, PartialEq, Eq, Structural)]
pub struct TypeError;

/// What a type resolves to: the name `Int` becomes `Type::Int`, every
/// other type is left as it is.
pub open spec fn resolve_type_spec(t: Type) -> Type {
    match t {
        Type::Unresolved(name) => if name@ == "Int"@ {
            Type::Int
        } else {
            Type::Unresolved(name)
        },
        _ => t,
    }
}

/// Whether one statement is the other with every parameter type and the
/// return type of a definition resolved; statements of other kinds are
/// untouched.
pub open spec fn resolved_stmt(s: Stmt, r: Stmt) -> bool {
    match s {
        Stmt::Def { annotations, name, params, return_type, body } => {
            &&& r matches Stmt::Def {
                annotations: rann,
                name: rname,
                params: rparams,
                return_type: rret,
                body: rbody,
            }
            &&& rann == annotations
            &&& rname == name
            &&& rparams@.len() == params@.len()
            &&& forall|i: int|
                0 <= i < params@.len() ==> (#[trigger] rparams@[i]).0 == params@[i].0
                    && rparams@[i].1 == resolve_type_spec(params@[i].1)
            &&& rret == resolve_type_spec(return_type)
            &&& rbody == body
        },
        _ => r == s,
    }
}

/// Whether one program is the other with every definition resolved.
pub open spec fn resolved_program(p: Program, r: Program) -> bool {
    &&& r.statements@.len() == p.statements@.len()
    &&& forall|i: int|
        0 <= i < p.statements@.len() ==> resolved_stmt(
            #[trigger] p.statements@[i],
            r.statements@[i],
        )
}

/// Resolve every definition's parameter and return types in place.
/// Always succeeds: unresolvable names are left for code generation to
/// report.
pub fn typecheck(program: &mut Program) -> (r: Result<(), TypeError>)
    ensures
        r is Ok,
        resolved_program(*old(program), *final(program)),
{
    TypeChecker::new().typecheck_program(program)
}

struct TypeChecker;

impl TypeChecker {
    fn new() -> (r: Self) {
        TypeChecker
    }

    /// Rewrite `Unresolved("Int")` to `Int`; leave everything else.
    fn resolve_type(&self, type_: &mut Type) -> (r: Result<(), TypeError>)
        ensures
            r is Ok,
            *final(type_) == resolve_type_spec(*old(type_)),
    {
        let is_int = match &*type_ {
            Type::Unresolved(name) => *name == String::from_str("Int"),
            _ => false,
        };
        if is_int {
            *type_ = Type::Int;
        }
        Ok(())
    }

    fn typecheck_program(&self, program: &mut Program) -> (r: Result<(), TypeError>)
        ensures
            r is Ok,
            resolved_program(*old(program), *final(program)),
    {
        let ghost orig = program.statements@;
        let mut pending: Vec<Stmt> = Vec::new();
        core::mem::swap(&mut pending, &mut program.statements);
        let n = pending.len();
        let mut done: Vec<Stmt> = Vec::new();
        for i in 0..n
            invariant
                n == orig.len(),
                pending@ == orig.skip(i as int),
                done@.len() == i,
                forall|j: int| 0 <= j < i ==> resolved_stmt(orig[j], #[trigger] done@[j]),
        {
            let stmt = pending.remove(0);
            let resolved = self.typecheck_stmt(stmt)?;
            done.push(resolved);
            proof {
                assert(pending@ =~= orig.skip(i + 1));
            }
        }
        program.statements = done;
        Ok(())
    }

    /// Resolve the parameter and return types of a definition; other
    /// statements pass through untouched.
    fn typecheck_stmt(&self, stmt: Stmt) -> (r: Result<Stmt, TypeError>)
        ensures
            r matches Ok(s) && resolved_stmt(stmt, s),
    {
        match stmt {
            Stmt::Def { annotations, name, params, return_type, body } => {
                let ghost orig_params = params@;
                let mut params = params;
                let mut resolved_params: Vec<(String, Type)> = Vec::new();
                let n = params.len();
                for i in 0..n
                    invariant
                        n == orig_params.len(),
                        params@ == orig_params.skip(i as int),
                        resolved_params@.len() == i,
                        forall|j: int|
                            0 <= j < i ==> (#[trigger] resolved_params@[j]).0 == orig_params[j].0
                                && resolved_params@[j].1 == resolve_type_spec(orig_params[j].1),
                {
                    let (pname, mut ptype) = params.remove(0);
                    self.resolve_type(&mut ptype)?;
                    resolved_params.push((pname, ptype));
                    proof {
                        assert(params@ =~= orig_params.skip(i + 1));
                    }
                }
                let mut return_type = return_type;
                self.resolve_type(&mut return_type)?;
                Ok(
                    Stmt::Def {
                        annotations,
                        name,
                        params: resolved_params,
                        return_type,
                        body,
                    },
                )
            },
            other => Ok(other),
        }
    }
}

} // verus!
