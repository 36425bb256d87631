//! Compiler backend for a small expression language targeting the
//! WebAssembly binary format: an abstract module model, a binary encoder
//! producing byte-exact output, a minimal type resolver, and a code
//! generator, together with the surface lexer, parser and a tree-walking
//! evaluator.

pub mod ast;
pub mod ast_to_ir;
pub mod codegen;
pub mod eval;
pub mod ir;
pub mod lexer;
pub mod num;
pub mod parser;
pub mod repl;
pub mod typecheck;
pub mod wasm;

use vstd::prelude::*;

verus! {

/// Compile source text to a binary module: parse, lower, resolve the
/// types, generate code and encode.  The guards before code generation
/// enforce the generator's machine limits (index values must fit the
/// 32-bit index space); no program that fits in memory comes near them.
pub fn compile(source: &str) -> (r: Result<Vec<u8>, &'static str>) {
    let program = match parser::Parser::parse(source) {
        Ok(p) => p,
        Err(e) => {
            return Err(e);
        },
    };
    let mut ir_program = ast_to_ir::lower_program(&program);
    if !(ir_program.statements.len() < 0xffff_ffff) {
        return Err("too many statements");
    }
    let n = ir_program.statements.len();
    for i in 0..n
        invariant
            n == ir_program.statements@.len(),
            forall|j: int|
                0 <= j < i ==> match #[trigger] ir_program.statements@[j] {
                    ir::Stmt::Def { params, .. } => params@.len() < 0x1_0000_0000,
                    _ => true,
                },
    {
        match &ir_program.statements[i] {
            ir::Stmt::Def { params, .. } => {
                if !((params.len() as u64) < 0x1_0000_0000u64) {
                    return Err("too many parameters");
                }
            },
            _ => {},
        }
    }
    let ghost pre_stmts = ir_program.statements@;
    match typecheck::typecheck(&mut ir_program) {
        Ok(()) => {},
        Err(_) => {
            return Err("type error");
        },
    }
    proof {
        assert forall|j: int| 0 <= j < ir_program.statements@.len() implies match #[trigger] ir_program.statements@[j] {
            ir::Stmt::Def { params, .. } => params@.len() < 0x1_0000_0000,
            _ => true,
        } by {
            assert(typecheck::resolved_stmt(pre_stmts[j], ir_program.statements@[j]));
        }
        assert(codegen::program_sizes_ok(ir_program));
    }
    let module = match codegen::CodeGenerator::generate(&ir_program) {
        Ok(m) => m,
        Err(e) => {
            return Err(
                match e {
                    codegen::CodeGenError::UnsupportedAnnotation => "unsupported annotation",
                    codegen::CodeGenError::UnsupportedParamType => "unsupported parameter type",
                    codegen::CodeGenError::UnsupportedReturnType => "unsupported return type",
                    codegen::CodeGenError::UnsupportedStmt => "unsupported statement",
                    codegen::CodeGenError::UnsupportedExpr => "not yet supported",
                    codegen::CodeGenError::IdentNotFound => "identifier not found",
                    codegen::CodeGenError::MalformedIntLit => "malformed integer literal",
                },
            );
        },
    };
    match wasm::emit(&module) {
        Ok(bytes) => Ok(bytes),
        Err(_) => Err("unsupported instruction"),
    }
}

} // verus!
