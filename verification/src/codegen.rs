//! The code generator: walks a resolved intermediate-representation
//! program and builds an abstract module.
//!
//! Each definition becomes one function; its optional `export("name")`
//! annotation becomes an export.  Top-level expression statements compile,
//! each followed by a `drop`, into one implicit function that is appended
//! last and exported as `_start`; a top-level `let` is not supported and
//! is a hard failure.  Every failure aborts generation of the whole
//! module.

use vstd::prelude::*;

use crate::ir;
use crate::num::spec_parse_i32;
use crate::wasm;

verus! {

broadcast use vstd::seq::axiom_seq_index_decreases, vstd::std_specs::vec::axiom_vec_index_decreases, vstd::std_specs::vec::axiom_vec_decreases_to_view;

/// Failure of code generation, one case per unsupported construct or
/// invalid reference.
#[derive(Clone, Copy, Debug, PartialEq, Eq, Structural)]
pub enum CodeGenError {
    /// An annotation that is not exactly `export("name")`, or more than
    /// one annotation on one definition.
    UnsupportedAnnotation,
    /// A parameter whose type did not resolve to `Int`.
    UnsupportedParamType,
    /// A return type that did not resolve to `Int`.
    UnsupportedReturnType,
    /// A statement shape with no compiled form (a top-level `let`).
    UnsupportedStmt,
    /// An expression shape with no compiled form (assignment, lambda,
    /// call, string literal).
    UnsupportedExpr,
    /// An identifier not bound by the enclosing definition's parameters.
    IdentNotFound,
    /// An integer literal that is not a decimal 32-bit integer.
    MalformedIntLit,
}

/// The parameter names of a definition, in declaration order: they define
/// the function's local-index space.
pub open spec fn param_names(params: Seq<(String, ir::Type)>) -> Seq<Seq<char>> {
    Seq::new(params.len(), |i: int| params[i].0@)
}

/// The index of the first local with the given name.
pub open spec fn local_index(names: Seq<Seq<char>>, name: Seq<char>) -> Option<int>
    decreases names.len(),
{
    if names.len() == 0 {
        None
    } else if names[0] == name {
        Some(0int)
    } else {
        match local_index(names.drop_first(), name) {
            Some(i) => Some(i + 1),
            None => None,
        }
    }
}

/// The instruction a binary operator compiles to.
pub open spec fn op_instr(op: ir::BinOp) -> wasm::Instr {
    match op {
        ir::BinOp::Add => wasm::Instr::I32Add,
        ir::BinOp::Sub => wasm::Instr::I32Sub,
        ir::BinOp::Mul => wasm::Instr::I32Mul,
    }
}

/// The instruction sequence an expression compiles to under the given
/// locals, or the first error met in left-to-right order.
pub open spec fn gen_expr(e: ir::Expr, names: Seq<Seq<char>>) -> Result<
    Seq<wasm::Instr>,
    CodeGenError,
>
    decreases e,
{
    match e {
        ir::Expr::BinOp { op, lhs, rhs } => match gen_expr(*lhs, names) {
            Err(er) => Err(er),
            Ok(l) => match gen_expr(*rhs, names) {
                Err(er) => Err(er),
                Ok(r) => Ok(l + r + seq![op_instr(op)]),
            },
        },
        ir::Expr::Ident(name) => match local_index(names, name@) {
            Some(i) => Ok(seq![wasm::Instr::LocalGet(wasm::LocalIdx(i as u32))]),
            None => Err(CodeGenError::IdentNotFound),
        },
        ir::Expr::IntLit(raw) => match spec_parse_i32(raw@) {
            Some(v) => Ok(seq![wasm::Instr::I32Const(v as u32)]),
            None => Err(CodeGenError::MalformedIntLit),
        },
        _ => Err(CodeGenError::UnsupportedExpr),
    }
}

/// Whether a string-literal token is well formed: the quotes that
/// delimited it in the source are still present.
pub open spec fn wf_string_lit(s: Seq<char>) -> bool {
    s.len() >= 2 && s[0] == '"' && s[s.len() - 1] == '"'
}

/// The contents of a well-formed string-literal token.
pub open spec fn lit_content(s: Seq<char>) -> Seq<char> {
    s.subrange(1, s.len() - 1)
}

/// What a definition's annotation list yields: no export, the export
/// name, or the unsupported-annotation failure.  The one recognized shape
/// is a single call of the identifier `export` with one string-literal
/// argument.
pub open spec fn annot_export(anns: Seq<ir::Expr>) -> Result<Option<Seq<char>>, CodeGenError> {
    if anns.len() == 0 {
        Ok(None)
    } else if anns.len() == 1 {
        match anns[0] {
            ir::Expr::Call { callee, args } => match *callee {
                ir::Expr::Ident(f) => if f@ == "export"@ && args@.len() == 1 {
                    match args@[0] {
                        ir::Expr::StringLit(s) => if wf_string_lit(s@) {
                            Ok(Some(lit_content(s@)))
                        } else {
                            Err(CodeGenError::UnsupportedAnnotation)
                        },
                        _ => Err(CodeGenError::UnsupportedAnnotation),
                    }
                } else {
                    Err(CodeGenError::UnsupportedAnnotation)
                },
                _ => Err(CodeGenError::UnsupportedAnnotation),
            },
            _ => Err(CodeGenError::UnsupportedAnnotation),
        }
    } else {
        Err(CodeGenError::UnsupportedAnnotation)
    }
}

/// Whether every parameter type resolved to `Int`.
pub open spec fn params_all_int(params: Seq<(String, ir::Type)>) -> bool {
    forall|i: int| 0 <= i < params.len() ==> (#[trigger] params[i]).1 is Int
}

/// The error one statement contributes, if any, with the checks in the
/// order the generator makes them.
pub open spec fn stmt_gen_err(s: ir::Stmt) -> Option<CodeGenError> {
    match s {
        ir::Stmt::Def { annotations, name, params, return_type, body } => {
            match annot_export(annotations@) {
                Err(e) => Some(e),
                Ok(_) => if !params_all_int(params@) {
                    Some(CodeGenError::UnsupportedParamType)
                } else if !(return_type is Int) {
                    Some(CodeGenError::UnsupportedReturnType)
                } else {
                    match gen_expr(*body, param_names(params@)) {
                        Err(e) => Some(e),
                        Ok(_) => None,
                    }
                },
            }
        },
        ir::Stmt::Let { .. } => Some(CodeGenError::UnsupportedStmt),
        ir::Stmt::Expr(e) => match gen_expr(e, Seq::empty()) {
            Err(er) => Some(er),
            Ok(_) => None,
        },
    }
}

/// The first error in a statement sequence, in order.
pub open spec fn first_err(stmts: Seq<ir::Stmt>) -> Option<CodeGenError>
    decreases stmts.len(),
{
    if stmts.len() == 0 {
        None
    } else {
        match first_err(stmts.drop_last()) {
            Some(e) => Some(e),
            None => stmt_gen_err(stmts.last()),
        }
    }
}

/// How many definitions a statement sequence holds.
pub open spec fn def_count(stmts: Seq<ir::Stmt>) -> nat
    decreases stmts.len(),
{
    if stmts.len() == 0 {
        0
    } else {
        def_count(stmts.drop_last()) + (if stmts.last() is Def {
            1nat
        } else {
            0nat
        })
    }
}

/// Whether a function type is the signature of a definition with the
/// given parameters: one `i32` per parameter and a single `i32` result.
pub open spec fn sig_matches(ft: wasm::FuncType, params: Seq<(String, ir::Type)>) -> bool {
    &&& ft.0.0@.len() == params.len()
    &&& forall|i: int| 0 <= i < params.len() ==> #[trigger] ft.0.0@[i] == wasm::ValType::I32
    &&& ft.1.0@ == seq![wasm::ValType::I32]
}

/// Whether the type list holds the implicit function's empty signature
/// first and then, in order, the signature of every definition.
pub open spec fn types_ok(types: Seq<wasm::FuncType>, stmts: Seq<ir::Stmt>) -> bool
    decreases stmts.len(),
{
    if stmts.len() == 0 {
        types.len() == 1 && types[0].0.0@.len() == 0 && types[0].1.0@.len() == 0
    } else {
        match stmts.last() {
            ir::Stmt::Def { params, .. } => types.len() > 0 && types_ok(
                types.drop_last(),
                stmts.drop_last(),
            ) && sig_matches(types.last(), params@),
            _ => types_ok(types, stmts.drop_last()),
        }
    }
}

/// Whether the function list holds, in order, one function per
/// definition: its type index points one past its position (the implicit
/// type sits at index zero), it declares no extra locals, and its body is
/// the compiled body of the definition.
pub open spec fn funcs_ok(funcs: Seq<wasm::Func>, stmts: Seq<ir::Stmt>) -> bool
    decreases stmts.len(),
{
    if stmts.len() == 0 {
        funcs.len() == 0
    } else {
        match stmts.last() {
            ir::Stmt::Def { params, body, .. } => {
                &&& funcs.len() > 0
                &&& funcs_ok(funcs.drop_last(), stmts.drop_last())
                &&& funcs.last().ty.0 as nat == funcs.len()
                &&& funcs.last().locals@.len() == 0
                &&& gen_expr(*body, param_names(params@)) matches Ok(is) && funcs.last().body.0@
                    == is
            },
            _ => funcs_ok(funcs, stmts.drop_last()),
        }
    }
}

/// Whether the export list holds, in order, one export per annotated
/// definition, bound to that definition's function index.
pub open spec fn exports_ok(exports: Seq<wasm::Export>, stmts: Seq<ir::Stmt>) -> bool
    decreases stmts.len(),
{
    if stmts.len() == 0 {
        exports.len() == 0
    } else {
        match stmts.last() {
            ir::Stmt::Def { annotations, .. } => match annot_export(annotations@) {
                Ok(Some(name)) => {
                    &&& exports.len() > 0
                    &&& exports_ok(exports.drop_last(), stmts.drop_last())
                    &&& exports.last().name.0@ == name
                    &&& exports.last().desc == wasm::ExportDesc::Func(
                        wasm::FuncIdx((def_count(stmts) - 1) as u32),
                    )
                },
                _ => exports_ok(exports, stmts.drop_last()),
            },
            _ => exports_ok(exports, stmts.drop_last()),
        }
    }
}

/// The body of the implicit function: the compiled top-level expression
/// statements in order, each followed by a `drop`.
pub open spec fn top_instrs(stmts: Seq<ir::Stmt>) -> Seq<wasm::Instr>
    decreases stmts.len(),
{
    if stmts.len() == 0 {
        Seq::empty()
    } else {
        match stmts.last() {
            ir::Stmt::Expr(e) => top_instrs(stmts.drop_last()) + (match gen_expr(
                e,
                Seq::empty(),
            ) {
                Ok(is) => is,
                Err(_) => Seq::empty(),
            }) + seq![wasm::Instr::Drop],
            _ => top_instrs(stmts.drop_last()),
        }
    }
}

/// Whether a module is the generated module of a program: the implicit
/// type and function, one function per definition with its signature and
/// compiled body, the exports of the annotated definitions followed by
/// the `_start` export, and nothing else populated.
pub open spec fn module_matches(m: wasm::Module, p: ir::Program) -> bool {
    let stmts = p.statements@;
    &&& types_ok(m.types@, stmts)
    &&& m.funcs@.len() == def_count(stmts) + 1
    &&& funcs_ok(m.funcs@.drop_last(), stmts)
    &&& m.funcs@.last().ty.0 == 0
    &&& m.funcs@.last().locals@.len() == 0
    &&& m.funcs@.last().body.0@ == top_instrs(stmts)
    &&& m.exports@.len() > 0
    &&& exports_ok(m.exports@.drop_last(), stmts)
    &&& m.exports@.last().name.0@ == "_start"@
    &&& m.exports@.last().desc == wasm::ExportDesc::Func(
        wasm::FuncIdx(def_count(stmts) as u32),
    )
    &&& m.tables@.len() == 0
    &&& m.mems@.len() == 0
    &&& m.globals@.len() == 0
    &&& m.elem@.len() == 0
    &&& m.data@.len() == 0
    &&& m.start is None
    &&& m.imports@.len() == 0
}

/// The machine limits code generation needs: index values must fit the
/// 32-bit index space of the binary format.
pub open spec fn program_sizes_ok(p: ir::Program) -> bool {
    &&& p.statements@.len() < 0xffff_ffff
    &&& forall|i: int|
        0 <= i < p.statements@.len() ==> match #[trigger] p.statements@[i] {
            ir::Stmt::Def { params, .. } => params@.len() < 0x1_0000_0000,
            _ => true,
        }
}

/// A definition that carries more than one annotation always fails with
/// the unsupported-annotation error.
pub proof fn lemma_two_annotations_fail(anns: Seq<ir::Expr>)
    requires
        anns.len() >= 2,
    ensures
        annot_export(anns) == Result::<Option<Seq<char>>, CodeGenError>::Err(
            CodeGenError::UnsupportedAnnotation,
        ),
{
}

/// An identifier that none of the locals bind always fails to compile
/// with the identifier-not-found error.
pub proof fn lemma_unbound_ident_fails(name: String, names: Seq<Seq<char>>)
    requires
        forall|j: int| 0 <= j < names.len() ==> #[trigger] names[j] != name@,
    ensures
        gen_expr(ir::Expr::Ident(name), names) == Result::<Seq<wasm::Instr>, CodeGenError>::Err(
            CodeGenError::IdentNotFound,
        ),
{
    lemma_local_index_none(names, name@);
}

/// A first match at position `i` makes `local_index` yield `i`.
proof fn lemma_local_index_found(names: Seq<Seq<char>>, name: Seq<char>, i: int)
    requires
        0 <= i < names.len(),
        names[i] == name,
        forall|j: int| 0 <= j < i ==> #[trigger] names[j] != name,
    ensures
        local_index(names, name) == Some(i),
    decreases i,
{
    if i > 0 {
        lemma_local_index_found(names.drop_first(), name, i - 1);
    }
}

/// No match anywhere makes `local_index` yield nothing.
proof fn lemma_local_index_none(names: Seq<Seq<char>>, name: Seq<char>)
    requires
        forall|j: int| 0 <= j < names.len() ==> #[trigger] names[j] != name,
    ensures
        local_index(names, name) is None,
    decreases names.len(),
{
    if names.len() > 0 {
        lemma_local_index_none(names.drop_first(), name);
    }
}

/// The local symbol table of one definition: its parameters in
/// declaration order, index-addressed.
struct Context {
    locals: Vec<(String, ir::Type)>,
}

impl Context {
    fn new() -> (r: Self)
        ensures
            r.locals@.len() == 0,
    {
        Context { locals: Vec::new() }
    }
}

/// The names the context binds, in order.
spec fn ctx_names(ctx: Context) -> Seq<Seq<char>> {
    Seq::new(ctx.locals@.len(), |i: int| ctx.locals@[i].0@)
}

/// The code generator.  Stateless: one value generates one module.
pub struct CodeGenerator {}

impl CodeGenerator {
    fn new() -> (r: Self) {
        CodeGenerator {  }
    }

    /// Generate the module of a whole program.  Succeeds exactly when no
    /// statement contributes an error, and then the module is the one
    /// `module_matches` describes; otherwise the result is the first
    /// error in order.
    pub fn generate(program: &ir::Program) -> (r: Result<wasm::Module, CodeGenError>)
        requires
            program_sizes_ok(*program),
        ensures
            first_err(program.statements@) is None ==> (r matches Ok(m) && module_matches(
                m,
                *program,
            )),
            first_err(program.statements@) matches Some(e) ==> r == Result::<
                wasm::Module,
                CodeGenError,
            >::Err(e),
    {
        let g = Self::new();
        let mut module = wasm::Module::new();
        match g.generate_program(program, &mut module) {
            Ok(()) => Ok(module),
            Err(e) => Err(e),
        }
    }

    fn generate_program(&self, program: &ir::Program, module: &mut wasm::Module) -> (r: Result<
        (),
        CodeGenError,
    >)
        requires
            program_sizes_ok(*program),
            old(module).types@.len() == 0,
            old(module).funcs@.len() == 0,
            old(module).tables@.len() == 0,
            old(module).mems@.len() == 0,
            old(module).globals@.len() == 0,
            old(module).elem@.len() == 0,
            old(module).data@.len() == 0,
            old(module).start is None,
            old(module).imports@.len() == 0,
            old(module).exports@.len() == 0,
        ensures
            first_err(program.statements@) is None ==> r is Ok && module_matches(
                *final(module),
                *program,
            ),
            first_err(program.statements@) matches Some(e) ==> r == Result::<
                (),
                CodeGenError,
            >::Err(e),
    {
        let ghost stmts = program.statements@;
        module.types.push(wasm::FuncType(
            wasm::ResultType(Vec::new()),
            wasm::ResultType(Vec::new()),
        ));
        let mut instructions: Vec<wasm::Instr> = Vec::new();
        let n = program.statements.len();
        for i in 0..n
            invariant
                stmts == program.statements@,
                n == stmts.len(),
                program_sizes_ok(*program),
                first_err(stmts.take(i as int)) is None,
                types_ok(module.types@, stmts.take(i as int)),
                module.types@.len() == def_count(stmts.take(i as int)) + 1,
                module.funcs@.len() == def_count(stmts.take(i as int)),
                funcs_ok(module.funcs@, stmts.take(i as int)),
                exports_ok(module.exports@, stmts.take(i as int)),
                instructions@ == top_instrs(stmts.take(i as int)),
                module.tables@.len() == 0,
                module.mems@.len() == 0,
                module.globals@.len() == 0,
                module.elem@.len() == 0,
                module.data@.len() == 0,
                module.start is None,
                module.imports@.len() == 0,
        {
            proof {
                lemma_def_count_le(stmts.take(i as int));
                assert(stmts.take(i + 1).drop_last() =~= stmts.take(i as int));
                assert(stmts.take(i + 1).last() == stmts[i as int]);
            }
            match self.generate_stmt(&program.statements[i], module, &mut instructions) {
                Ok(()) => {
                    proof {
                        assert(first_err(stmts.take(i + 1)) is None);
                    }
                },
                Err(e) => {
                    proof {
                        assert(first_err(stmts.take(i + 1)) == Some(e));
                        lemma_first_err_extends(stmts, i + 1);
                    }
                    return Err(e);
                },
            }
        }
        proof {
            assert(stmts.take(n as int) =~= stmts);
            lemma_def_count_le(stmts);
        }
        let func_idx = wasm::FuncIdx(module.funcs.len() as u32);
        let ghost funcs_before = module.funcs@;
        let ghost exports_before = module.exports@;
        module.funcs.push(wasm::Func {
            ty: wasm::TypeIdx(0),
            locals: Vec::new(),
            body: wasm::Expr(instructions),
        });
        module.exports.push(wasm::Export {
            name: wasm::Name(String::from_str("_start")),
            desc: wasm::ExportDesc::Func(func_idx),
        });
        proof {
            assert(module.funcs@.drop_last() =~= funcs_before);
            assert(module.exports@.drop_last() =~= exports_before);
        }
        Ok(())
    }

    /// Generate one statement into the module (a definition) or into the
    /// implicit function's instruction sequence (an expression).
    #[verifier::loop_isolation(false)]
    fn generate_stmt(
        &self,
        stmt: &ir::Stmt,
        module: &mut wasm::Module,
        instructions: &mut Vec<wasm::Instr>,
    ) -> (r: Result<(), CodeGenError>)
        requires
            old(module).types@.len() < 0xffff_ffff,
            old(module).funcs@.len() < 0xffff_ffff,
            stmt matches ir::Stmt::Def { params, .. } ==> params@.len() < 0x1_0000_0000,
        ensures
            stmt_gen_err(*stmt) matches Some(e) ==> r == Result::<(), CodeGenError>::Err(e),
            stmt_gen_err(*stmt) is None ==> r is Ok && (match *stmt {
                ir::Stmt::Def { annotations, params, body, .. } => {
                    &&& final(module).types@.len() == old(module).types@.len() + 1
                    &&& final(module).types@.drop_last() == old(module).types@
                    &&& sig_matches(final(module).types@.last(), params@)
                    &&& final(module).funcs@.len() == old(module).funcs@.len() + 1
                    &&& final(module).funcs@.drop_last() == old(module).funcs@
                    &&& final(module).funcs@.last().ty.0 as nat == old(module).types@.len()
                    &&& final(module).funcs@.last().locals@.len() == 0
                    &&& (gen_expr(*body, param_names(params@)) matches Ok(is)
                        && final(module).funcs@.last().body.0@ == is)
                    &&& (match annot_export(annotations@) {
                        Ok(Some(name)) => {
                            &&& final(module).exports@.len() == old(module).exports@.len() + 1
                            &&& final(module).exports@.drop_last() == old(module).exports@
                            &&& final(module).exports@.last().name.0@ == name
                            &&& final(module).exports@.last().desc == wasm::ExportDesc::Func(
                                wasm::FuncIdx(old(module).funcs@.len() as u32))
                        },
                        _ => final(module).exports@ == old(module).exports@,
                    })
                    &&& final(module).tables@ == old(module).tables@
                    &&& final(module).mems@ == old(module).mems@
                    &&& final(module).globals@ == old(module).globals@
                    &&& final(module).elem@ == old(module).elem@
                    &&& final(module).data@ == old(module).data@
                    &&& final(module).start == old(module).start
                    &&& final(module).imports@ == old(module).imports@
                    &&& final(instructions)@ == old(instructions)@
                },
                ir::Stmt::Let { .. } => false,
                ir::Stmt::Expr(e) => {
                    &&& *final(module) == *old(module)
                    &&& (gen_expr(e, Seq::empty()) matches Ok(is)
                        && final(instructions)@ == old(instructions)@ + is
                        + seq![wasm::Instr::Drop])
                },
            }),
    {
        match stmt {
            ir::Stmt::Def { annotations, name: _name, params, return_type, body } => {
                // Annotation handling: zero annotations, or exactly one
                // `export("name")`.
                let export_name: Option<String> = if annotations.len() == 0 {
                    None
                } else if annotations.len() == 1 {
                    match &annotations[0] {
                        ir::Expr::Call { callee, args } => {
                            let ok_callee = match &**callee {
                                ir::Expr::Ident(f) => *f == String::from_str("export"),
                                _ => false,
                            };
                            if !(ok_callee && args.len() == 1) {
                                return Err(CodeGenError::UnsupportedAnnotation);
                            }
                            match &args[0] {
                                ir::Expr::StringLit(s) => {
                                    let slen = s.as_str().unicode_len();
                                    if !(slen >= 2 && s.as_str().get_char(0) == '"'
                                        && s.as_str().get_char(slen - 1) == '"') {
                                        return Err(CodeGenError::UnsupportedAnnotation);
                                    }
                                    let content = s.as_str().substring_char(1, slen - 1);
                                    Some(String::from_str(content))
                                },
                                _ => {
                                    return Err(CodeGenError::UnsupportedAnnotation);
                                },
                            }
                        },
                        _ => {
                            return Err(CodeGenError::UnsupportedAnnotation);
                        },
                    }
                } else {
                    return Err(CodeGenError::UnsupportedAnnotation);
                };
                // Signature construction: every parameter and the result
                // must have resolved to `Int`.
                let mut param_types: Vec<wasm::ValType> = Vec::new();
                let np = params.len();
                for i in 0..np
                    invariant
                        np == params@.len(),
                        param_types@.len() == i,
                        forall|j: int|
                            0 <= j < i ==> #[trigger] param_types@[j] == wasm::ValType::I32,
                        forall|j: int| 0 <= j < i ==> (#[trigger] params@[j]).1 is Int,
                {
                    match &params[i].1 {
                        ir::Type::Int => param_types.push(wasm::ValType::I32),
                        _ => {
                            return Err(CodeGenError::UnsupportedParamType);
                        },
                    }
                }
                let mut result_types: Vec<wasm::ValType> = Vec::new();
                match return_type {
                    ir::Type::Int => result_types.push(wasm::ValType::I32),
                    _ => {
                        return Err(CodeGenError::UnsupportedReturnType);
                    },
                }
                let type_idx = wasm::TypeIdx(module.types.len() as u32);
                module.types.push(wasm::FuncType(
                    wasm::ResultType(param_types),
                    wasm::ResultType(result_types),
                ));
                // The local symbol table: the parameters in order.
                let mut ctx = Context::new();
                for i in 0..np
                    invariant
                        np == params@.len(),
                        ctx.locals@.len() == i,
                        forall|j: int| 0 <= j < i ==> #[trigger] ctx.locals@[j] == params@[j],
                {
                    let (pname, ptype) = &params[i];
                    ctx.locals.push((pname.clone(), ptype.clone()));
                }
                proof {
                    assert(ctx_names(ctx) =~= param_names(params@));
                }
                let mut body_instrs: Vec<wasm::Instr> = Vec::new();
                self.generate_expr(body, &ctx, &mut body_instrs)?;
                let func_idx = wasm::FuncIdx(module.funcs.len() as u32);
                module.funcs.push(wasm::Func {
                    ty: type_idx,
                    locals: Vec::new(),
                    body: wasm::Expr(body_instrs),
                });
                if let Some(ename) = export_name {
                    module.exports.push(wasm::Export {
                        name: wasm::Name(ename),
                        desc: wasm::ExportDesc::Func(func_idx),
                    });
                }
                proof {
                    assert(final(module).types@.drop_last() =~= old(module).types@);
                    assert(final(module).funcs@.drop_last() =~= old(module).funcs@);
                    if annot_export(annotations@) matches Ok(Some(_)) {
                        assert(final(module).exports@.drop_last() =~= old(module).exports@);
                    }
                }
                Ok(())
            },
            ir::Stmt::Let { .. } => Err(CodeGenError::UnsupportedStmt),
            ir::Stmt::Expr(e) => {
                let ctx = Context::new();
                proof {
                    assert(ctx_names(ctx) =~= Seq::<Seq<char>>::empty());
                }
                self.generate_expr(e, &ctx, instructions)?;
                instructions.push(wasm::Instr::Drop);
                proof {
                    assert(final(instructions)@ =~= old(instructions)@ + (gen_expr(
                        *e,
                        Seq::empty(),
                    )->Ok_0) + seq![wasm::Instr::Drop]);
                }
                Ok(())
            },
        }
    }

    /// Generate one expression into an instruction sequence by structural
    /// recursion: left operand, right operand, operator; locals by index;
    /// integer literals as constants.
    fn generate_expr(
        &self,
        expr: &ir::Expr,
        ctx: &Context,
        instructions: &mut Vec<wasm::Instr>,
    ) -> (r: Result<(), CodeGenError>)
        requires
            ctx.locals@.len() < 0x1_0000_0000,
        ensures
            gen_expr(*expr, ctx_names(*ctx)) matches Ok(is) ==> r is Ok && final(instructions)@
                == old(instructions)@ + is,
            gen_expr(*expr, ctx_names(*ctx)) matches Err(e) ==> r == Result::<
                (),
                CodeGenError,
            >::Err(e),
        decreases *expr,
    {
        match expr {
            ir::Expr::BinOp { op, lhs, rhs } => {
                self.generate_expr(lhs, ctx, instructions)?;
                self.generate_expr(rhs, ctx, instructions)?;
                match op {
                    ir::BinOp::Add => instructions.push(wasm::Instr::I32Add),
                    ir::BinOp::Sub => instructions.push(wasm::Instr::I32Sub),
                    ir::BinOp::Mul => instructions.push(wasm::Instr::I32Mul),
                }
                proof {
                    assert(final(instructions)@ =~= old(instructions)@ + ((gen_expr(
                        **lhs,
                        ctx_names(*ctx),
                    )->Ok_0) + (gen_expr(**rhs, ctx_names(*ctx))->Ok_0) + seq![op_instr(*op)]));
                }
                Ok(())
            },
            ir::Expr::Ident(name) => {
                let n = ctx.locals.len();
                let mut idx: usize = 0;
                let mut found = false;
                while idx < n
                    invariant_except_break
                        !found,
                    invariant
                        n == ctx.locals@.len(),
                        n < 0x1_0000_0000,
                        idx <= n,
                        forall|j: int| 0 <= j < idx ==> #[trigger] ctx_names(*ctx)[j] != name@,
                    ensures
                        found ==> idx < n && ctx_names(*ctx)[idx as int] == name@ && forall|j: int|
                            0 <= j < idx ==> #[trigger] ctx_names(*ctx)[j] != name@,
                        !found ==> forall|j: int|
                            0 <= j < n ==> #[trigger] ctx_names(*ctx)[j] != name@,
                    decreases n - idx,
                {
                    if *name == ctx.locals[idx].0 {
                        found = true;
                        break;
                    }
                    idx += 1;
                }
                if found {
                    instructions.push(wasm::Instr::LocalGet(wasm::LocalIdx(idx as u32)));
                    proof {
                        lemma_local_index_found(ctx_names(*ctx), name@, idx as int);
                        assert(final(instructions)@ =~= old(instructions)@ + seq![
                            wasm::Instr::LocalGet(wasm::LocalIdx(idx as u32)),
                        ]);
                    }
                    Ok(())
                } else {
                    proof {
                        lemma_local_index_none(ctx_names(*ctx), name@);
                    }
                    Err(CodeGenError::IdentNotFound)
                }
            },
            ir::Expr::IntLit(raw) => {
                match crate::num::parse_i32(raw.as_str()) {
                    Some(value) => {
                        instructions.push(wasm::Instr::I32Const(
                            #[verifier::truncate] (value as u32),
                        ));
                        proof {
                            assert(final(instructions)@ =~= old(instructions)@ + seq![
                                wasm::Instr::I32Const(#[verifier::truncate] (value as u32)),
                            ]);
                        }
                        Ok(())
                    },
                    None => Err(CodeGenError::MalformedIntLit),
                }
            },
            _ => Err(CodeGenError::UnsupportedExpr),
        }
    }
}

/// A statement sequence never holds more definitions than statements.
proof fn lemma_def_count_le(stmts: Seq<ir::Stmt>)
    ensures
        def_count(stmts) <= stmts.len(),
    decreases stmts.len(),
{
    if stmts.len() > 0 {
        lemma_def_count_le(stmts.drop_last());
    }
}

/// Once a prefix of the statements carries an error, the whole sequence
/// carries the same first error.
proof fn lemma_first_err_extends(stmts: Seq<ir::Stmt>, i: int)
    requires
        0 <= i <= stmts.len(),
        first_err(stmts.take(i)) is Some,
    ensures
        first_err(stmts) == first_err(stmts.take(i)),
    decreases stmts.len() - i,
{
    if i < stmts.len() {
        assert(stmts.take(i + 1).drop_last() =~= stmts.take(i));
        lemma_first_err_extends(stmts, i + 1);
    } else {
        assert(stmts.take(i) =~= stmts);
    }
}

/// The tree-walking evaluation of the supported expression subset, on
/// unbounded integers: operators evaluate left to right, identifiers read
/// the argument bound to the parameter of the same name, integer literals
/// are their 32-bit value.
pub open spec fn eval_expr_int(e: ir::Expr, names: Seq<Seq<char>>, args: Seq<int>) -> Option<int>
    decreases e,
{
    match e {
        ir::Expr::BinOp { op, lhs, rhs } => match (
            eval_expr_int(*lhs, names, args),
            eval_expr_int(*rhs, names, args),
        ) {
            (Some(a), Some(b)) => Some(
                match op {
                    ir::BinOp::Add => a + b,
                    ir::BinOp::Sub => a - b,
                    ir::BinOp::Mul => a * b,
                },
            ),
            _ => None,
        },
        ir::Expr::Ident(name) => match local_index(names, name@) {
            Some(i) => if i < args.len() {
                Some(args[i])
            } else {
                None
            },
            None => None,
        },
        ir::Expr::IntLit(raw) => match spec_parse_i32(raw@) {
            Some(v) => Some(v as int),
            None => None,
        },
        _ => None,
    }
}

/// Whether the evaluation of an expression, and of each of its
/// subexpressions, yields a value within the signed 32-bit range.
pub open spec fn expr_in_bounds(e: ir::Expr, names: Seq<Seq<char>>, args: Seq<int>) -> bool
    decreases e,
{
    (match eval_expr_int(e, names, args) {
        Some(v) => i32::MIN <= v <= i32::MAX,
        None => false,
    }) && (match e {
        ir::Expr::BinOp { op, lhs, rhs } => expr_in_bounds(*lhs, names, args) && expr_in_bounds(
            *rhs,
            names,
            args,
        ),
        _ => true,
    })
}

/// The arguments' two's-complement bit patterns.
pub open spec fn u32s_of_ints(args: Seq<int>) -> Seq<u32> {
    Seq::new(args.len(), |i: int| crate::wasm::exec::u32_of_int(args[i]))
}

/// A found local index lies within the locals.
proof fn lemma_local_index_bound(names: Seq<Seq<char>>, name: Seq<char>)
    requires
        local_index(names, name) is Some,
    ensures
        0 <= local_index(names, name)->Some_0 < names.len(),
    decreases names.len(),
{
    if names.len() > 0 && names[0] != name {
        lemma_local_index_bound(names.drop_first(), name);
    }
}

/// Compiled code computes the tree evaluation: running the instructions
/// an expression compiles to pushes exactly the two's-complement pattern
/// of the expression's value, whenever every intermediate value stays
/// within the signed 32-bit range.
pub proof fn lemma_compiled_expr_correct(
    e: ir::Expr,
    names: Seq<Seq<char>>,
    args: Seq<int>,
    stack: Seq<u32>,
)
    requires
        names.len() < 0x1_0000_0000,
        args.len() == names.len(),
        gen_expr(e, names) is Ok,
        expr_in_bounds(e, names, args),
    ensures
        eval_expr_int(e, names, args) is Some,
        crate::wasm::exec::exec_instrs(gen_expr(e, names)->Ok_0, u32s_of_ints(args), stack)
            == Some(
            stack.push(
                crate::wasm::exec::u32_of_int(eval_expr_int(e, names, args)->Some_0),
            ),
        ),
    decreases e,
{
    let locs = u32s_of_ints(args);
    match e {
        ir::Expr::BinOp { op, lhs, rhs } => {
            let l = gen_expr(*lhs, names)->Ok_0;
            let r = gen_expr(*rhs, names)->Ok_0;
            let a = eval_expr_int(*lhs, names, args)->Some_0;
            let b = eval_expr_int(*rhs, names, args)->Some_0;
            lemma_compiled_expr_correct(*lhs, names, args, stack);
            let s1 = stack.push(crate::wasm::exec::u32_of_int(a));
            lemma_compiled_expr_correct(*rhs, names, args, s1);
            let s2 = s1.push(crate::wasm::exec::u32_of_int(b));
            let tail = seq![op_instr(op)];
            assert(gen_expr(e, names)->Ok_0 =~= l + (r + tail));
            crate::wasm::exec::lemma_exec_append(l, r + tail, locs, stack);
            crate::wasm::exec::lemma_exec_append(r, tail, locs, s1);
            assert(tail[0] == op_instr(op));
            assert(tail.drop_first() =~= Seq::<wasm::Instr>::empty());
            assert(s2.len() >= 2);
            assert(s2[s2.len() - 2] == crate::wasm::exec::u32_of_int(a));
            assert(s2[s2.len() - 1] == crate::wasm::exec::u32_of_int(b));
            assert(s2.drop_last().drop_last() =~= stack);
            let v = eval_expr_int(e, names, args)->Some_0;
            match op {
                ir::BinOp::Add => {
                    lemma_add_mod_noop_int(a, b);
                    assert(v == a + b);
                },
                ir::BinOp::Sub => {
                    lemma_sub_mod_noop_int(a, b);
                    assert(v == a - b);
                },
                ir::BinOp::Mul => {
                    lemma_mul_mod_noop_int(a, b);
                    assert(v == a * b);
                },
            }
            let s3 = stack.push(crate::wasm::exec::u32_of_int(v));
            assert(crate::wasm::exec::exec_instrs(Seq::<wasm::Instr>::empty(), locs, s3)
                == Some(s3));
            assert(s2.drop_last().drop_last().push(
                crate::wasm::exec::u32_of_int(s2[s2.len() - 2] + s2[s2.len() - 1]),
            ) =~= s3 || s2.drop_last().drop_last().push(
                crate::wasm::exec::u32_of_int(s2[s2.len() - 2] - s2[s2.len() - 1]),
            ) =~= s3 || s2.drop_last().drop_last().push(
                crate::wasm::exec::u32_of_int(s2[s2.len() - 2] * s2[s2.len() - 1]),
            ) =~= s3);
            assert(crate::wasm::exec::exec_instrs(tail, locs, s2) == Some(s3));
        },
        ir::Expr::Ident(name) => {
            lemma_local_index_bound(names, name@);
            let i = local_index(names, name@)->Some_0;
            assert(locs[i] == crate::wasm::exec::u32_of_int(args[i]));
            let gi = seq![wasm::Instr::LocalGet(wasm::LocalIdx(i as u32))];
            assert(gen_expr(e, names)->Ok_0 =~= gi);
            assert(gi[0] == wasm::Instr::LocalGet(wasm::LocalIdx(i as u32)));
            assert(gi.drop_first() =~= Seq::<wasm::Instr>::empty());
            assert((i as u32) < locs.len());
            assert(locs[(i as u32) as int] == crate::wasm::exec::u32_of_int(args[i]));
            let s3 = stack.push(crate::wasm::exec::u32_of_int(args[i]));
            assert(crate::wasm::exec::exec_instrs(Seq::<wasm::Instr>::empty(), locs, s3)
                == Some(s3));
            assert(crate::wasm::exec::exec_instrs(gi, locs, stack) == Some(s3));
        },
        ir::Expr::IntLit(raw) => {
            let v = spec_parse_i32(raw@)->Some_0;
            let bits = v as u32;
            if v < 0 {
                assert((((v as i64) + 0x1_0000_0000i64) as u32) == (v as u32)) by (bit_vector)
                    requires
                        v < 0,
                ;
            }
            assert(bits == crate::wasm::exec::u32_of_int(v as int));
            let gi = seq![wasm::Instr::I32Const(bits)];
            assert(gen_expr(e, names)->Ok_0 =~= gi);
            assert(gi[0] == wasm::Instr::I32Const(bits));
            assert(gi.drop_first() =~= Seq::<wasm::Instr>::empty());
            let s3 = stack.push(bits);
            assert(crate::wasm::exec::exec_instrs(Seq::<wasm::Instr>::empty(), locs, s3)
                == Some(s3));
            assert(crate::wasm::exec::exec_instrs(gi, locs, stack) == Some(s3));
        },
        _ => {},
    }
}

/// Wrapping the operands of an addition does not change the wrapped sum.
proof fn lemma_add_mod_noop_int(a: int, b: int)
    ensures
        crate::wasm::exec::u32_of_int(
            crate::wasm::exec::u32_of_int(a) + crate::wasm::exec::u32_of_int(b),
        ) == crate::wasm::exec::u32_of_int(a + b),
{
    vstd::arithmetic::div_mod::lemma_add_mod_noop(a, b, 0x1_0000_0000);
}

/// Wrapping the operands of a subtraction does not change the wrapped
/// difference.
proof fn lemma_sub_mod_noop_int(a: int, b: int)
    ensures
        crate::wasm::exec::u32_of_int(
            crate::wasm::exec::u32_of_int(a) - crate::wasm::exec::u32_of_int(b),
        ) == crate::wasm::exec::u32_of_int(a - b),
{
    vstd::arithmetic::div_mod::lemma_sub_mod_noop(a, b, 0x1_0000_0000);
}

/// Wrapping the operands of a multiplication does not change the wrapped
/// product.
proof fn lemma_mul_mod_noop_int(a: int, b: int)
    ensures
        crate::wasm::exec::u32_of_int(
            crate::wasm::exec::u32_of_int(a) * crate::wasm::exec::u32_of_int(b),
        ) == crate::wasm::exec::u32_of_int(a * b),
{
    vstd::arithmetic::div_mod::lemma_mul_mod_noop(a, b, 0x1_0000_0000);
}

/// The parameters of a definition statement.
pub open spec fn stmt_params(s: ir::Stmt) -> Seq<(String, ir::Type)> {
    match s {
        ir::Stmt::Def { params, .. } => params@,
        _ => Seq::empty(),
    }
}

/// The body of a definition statement.
pub open spec fn stmt_body(s: ir::Stmt) -> ir::Expr {
    match s {
        ir::Stmt::Def { body, .. } => *body,
        _ => vstd::pervasive::arbitrary(),
    }
}

/// An error-free statement sequence has no statement that contributes an
/// error.
proof fn lemma_first_err_none_all(stmts: Seq<ir::Stmt>, j: int)
    requires
        first_err(stmts) is None,
        0 <= j < stmts.len(),
    ensures
        stmt_gen_err(stmts[j]) is None,
    decreases stmts.len(),
{
    if j == stmts.len() - 1 {
    } else {
        lemma_first_err_none_all(stmts.drop_last(), j);
    }
}

/// The function list of an error-free generation holds one function per
/// definition.
proof fn lemma_funcs_ok_len(funcs: Seq<wasm::Func>, stmts: Seq<ir::Stmt>)
    requires
        funcs_ok(funcs, stmts),
    ensures
        funcs.len() == def_count(stmts),
    decreases stmts.len(),
{
    if stmts.len() > 0 {
        match stmts.last() {
            ir::Stmt::Def { .. } => {
                lemma_funcs_ok_len(funcs.drop_last(), stmts.drop_last());
            },
            _ => {
                lemma_funcs_ok_len(funcs, stmts.drop_last());
            },
        }
    }
}

/// Prefixes never hold more definitions than the whole sequence.
proof fn lemma_def_count_take_le(stmts: Seq<ir::Stmt>, j: int)
    requires
        0 <= j <= stmts.len(),
    ensures
        def_count(stmts.take(j)) <= def_count(stmts),
    decreases stmts.len() - j,
{
    if j == stmts.len() {
        assert(stmts.take(j) =~= stmts);
    } else {
        assert(stmts.take(j + 1).drop_last() =~= stmts.take(j));
        lemma_def_count_take_le(stmts, j + 1);
    }
}

/// The function of the `j`-th statement, when it is a definition: its
/// position among the functions, its empty locals and its compiled body.
proof fn lemma_funcs_ok_index(funcs: Seq<wasm::Func>, stmts: Seq<ir::Stmt>, j: int)
    requires
        funcs_ok(funcs, stmts),
        0 <= j < stmts.len(),
        stmts[j] is Def,
    ensures
        ({
            let k = def_count(stmts.take(j + 1)) - 1;
            &&& 0 <= k < funcs.len()
            &&& funcs[k].locals@.len() == 0
            &&& (gen_expr(stmt_body(stmts[j]), param_names(stmt_params(stmts[j]))) matches Ok(is)
                && funcs[k].body.0@ == is)
        }),
    decreases stmts.len(),
{
    lemma_funcs_ok_len(funcs, stmts);
    if j == stmts.len() - 1 {
        assert(stmts.take(j + 1) =~= stmts);
        assert(funcs[def_count(stmts) - 1] == funcs.last());
    } else {
        assert(stmts.take(j + 1) =~= stmts.drop_last().take(j + 1));
        assert(stmts.drop_last()[j] == stmts[j]);
        match stmts.last() {
            ir::Stmt::Def { .. } => {
                lemma_funcs_ok_index(funcs.drop_last(), stmts.drop_last(), j);
                let k = def_count(stmts.take(j + 1)) - 1;
                assert(funcs[k] == funcs.drop_last()[k]);
            },
            _ => {
                lemma_funcs_ok_index(funcs, stmts.drop_last(), j);
            },
        }
    }
}

/// Round trip for the supported subset: invoking the compiled function of
/// any definition of a generated module through the executor's semantics
/// returns exactly the tree-walking evaluation of the definition's body
/// under the same arguments, whenever every intermediate value stays
/// within the signed 32-bit range.  The function index is the
/// definition's position among the definitions of the program.
pub proof fn lemma_def_round_trip(m: wasm::Module, p: ir::Program, j: int, args: Seq<int>)
    requires
        module_matches(m, p),
        first_err(p.statements@) is None,
        0 <= j < p.statements@.len(),
        p.statements@[j] is Def,
        stmt_params(p.statements@[j]).len() < 0x1_0000_0000,
        args.len() == stmt_params(p.statements@[j]).len(),
        expr_in_bounds(
            stmt_body(p.statements@[j]),
            param_names(stmt_params(p.statements@[j])),
            args,
        ),
    ensures
        eval_expr_int(
            stmt_body(p.statements@[j]),
            param_names(stmt_params(p.statements@[j])),
            args,
        ) is Some,
        crate::wasm::exec::spec_invoke_idx(
            m,
            def_count(p.statements@.take(j + 1)) - 1,
            u32s_of_ints(args),
        ) == Some(
            crate::wasm::exec::u32_of_int(
                eval_expr_int(
                    stmt_body(p.statements@[j]),
                    param_names(stmt_params(p.statements@[j])),
                    args,
                )->Some_0,
            ),
        ),
{
    let stmts = p.statements@;
    let names = param_names(stmt_params(stmts[j]));
    let body = stmt_body(stmts[j]);
    lemma_first_err_none_all(stmts, j);
    assert(gen_expr(body, names) is Ok);
    let defs_funcs = m.funcs@.drop_last();
    lemma_funcs_ok_index(defs_funcs, stmts, j);
    lemma_funcs_ok_len(defs_funcs, stmts);
    lemma_def_count_take_le(stmts, j + 1);
    let k = def_count(stmts.take(j + 1)) - 1;
    assert(m.funcs@[k] == defs_funcs[k]);
    let f = m.funcs@[k];
    let locs = u32s_of_ints(args) + Seq::new(f.locals@.len(), |i: int| 0u32);
    assert(locs =~= u32s_of_ints(args));
    lemma_compiled_expr_correct(body, names, args, Seq::empty());
    let v = eval_expr_int(body, names, args)->Some_0;
    assert(crate::wasm::exec::exec_instrs(f.body.0@, locs, Seq::empty()) == Some(
        Seq::<u32>::empty().push(crate::wasm::exec::u32_of_int(v)),
    ));
    assert(Seq::<u32>::empty().push(crate::wasm::exec::u32_of_int(v)).len() == 1);
}

/// For a program of exactly one exported definition, the generated
/// module binds that export name to function index zero: invoking the
/// name invokes the definition's compiled body.  Together with
/// `lemma_def_round_trip`, invoking the exported name of such a module
/// returns exactly the tree-walking evaluation of the definition's body.
pub proof fn lemma_exported_def_invoke(m: wasm::Module, p: ir::Program, args: Seq<int>)
    requires
        module_matches(m, p),
        first_err(p.statements@) is None,
        p.statements@.len() == 1,
        p.statements@[0] matches ir::Stmt::Def { annotations, .. } && annot_export(annotations@)
            matches Ok(Some(_)),
        stmt_params(p.statements@[0]).len() < 0x1_0000_0000,
        args.len() == stmt_params(p.statements@[0]).len(),
        expr_in_bounds(
            stmt_body(p.statements@[0]),
            param_names(stmt_params(p.statements@[0])),
            args,
        ),
    ensures
        p.statements@[0] matches ir::Stmt::Def { annotations, .. } ==> crate::wasm::exec::spec_invoke(
            m,
            (annot_export(annotations@)->Ok_0)->Some_0,
            u32s_of_ints(args),
        ) == Some(
            crate::wasm::exec::u32_of_int(
                eval_expr_int(
                    stmt_body(p.statements@[0]),
                    param_names(stmt_params(p.statements@[0])),
                    args,
                )->Some_0,
            ),
        ),
{
    let stmts = p.statements@;
    match stmts[0] {
        ir::Stmt::Def { annotations, .. } => {
            let name = (annot_export(annotations@)->Ok_0)->Some_0;
            // The export list is the definition's export, then `_start`.
            let dl = m.exports@.drop_last();
            assert(stmts.drop_last() =~= Seq::<ir::Stmt>::empty());
            assert(stmts.last() == stmts[0]);
            assert(exports_ok(dl, stmts));
            assert(dl.len() > 0);
            assert(exports_ok(dl.drop_last(), Seq::<ir::Stmt>::empty()));
            assert(dl.drop_last().len() == 0);
            assert(dl.len() == 1);
            assert(m.exports@.len() == 2);
            assert(def_count(Seq::<ir::Stmt>::empty()) == 0);
            assert(def_count(stmts) == 1);
            assert(dl.last() == m.exports@[0]);
            assert(m.exports@[0].name.0@ == name);
            assert(m.exports@[0].desc == wasm::ExportDesc::Func(wasm::FuncIdx(0u32)));
            assert(crate::wasm::exec::find_export(m.exports@, name) == Some(0u32));
            assert(stmts.take(1) =~= stmts);
            lemma_def_round_trip(m, p, 0, args);
        },
        _ => {},
    }
}

} // verus!
