use nio::ast;
use nio::ast_to_ir::lower_program;
use nio::codegen::{CodeGenError, CodeGenerator};
use nio::typecheck::typecheck;
use nio::wasm::exec::invoke;
use nio::wasm::{emit, ExportDesc, Module};

/// The `export("name")` annotation expression.
fn export_annotation(name: &str) -> ast::Expr {
    ast::Expr::Call {
        callee: Box::new(ast::Expr::Ident("export".to_string())),
        args: vec![ast::Expr::StringLit(format!("\"{}\"", name))],
    }
}

/// A definition with `Int` parameters and an `Int` return type.
fn int_def(annotations: Vec<ast::Expr>, name: &str, params: &[&str], body: ast::Expr) -> ast::Stmt {
    ast::Stmt::Def {
        annotations,
        name: name.to_string(),
        params: params.iter().map(|p| (p.to_string(), "Int".to_string())).collect(),
        return_type: "Int".to_string(),
        body: Box::new(body),
    }
}

/// Run the middle of the pipeline: lower, resolve, generate.
fn generate(program: ast::Program) -> Result<Module, CodeGenError> {
    let mut ir_program = lower_program(&program);
    typecheck(&mut ir_program).unwrap();
    CodeGenerator::generate(&ir_program)
}

fn add_program() -> ast::Program {
    // @export("add") def add(x: Int, y: Int): Int = x + y
    ast::Program {
        statements: vec![int_def(
            vec![export_annotation("add")],
            "add",
            &["x", "y"],
            ast::Expr::BinOp {
                op: ast::BinOp::Add,
                lhs: Box::new(ast::Expr::Ident("x".to_string())),
                rhs: Box::new(ast::Expr::Ident("y".to_string())),
            },
        )],
    }
}

#[test]
fn test_add() {
    let module = generate(add_program()).unwrap();
    let result = invoke(&module, "add", &vec![3, 4]);
    assert_eq!(result, Some(7));
}

#[test]
fn test_add_module_shape() {
    let module = generate(add_program()).unwrap();
    // The implicit empty signature, then the definition's signature.
    assert_eq!(module.types.len(), 2);
    // The definition's function, then the implicit function.
    assert_eq!(module.funcs.len(), 2);
    assert_eq!(module.funcs[0].ty.0, 1);
    assert_eq!(module.funcs[1].ty.0, 0);
    // The definition's export, then the implicit one.
    assert_eq!(module.exports.len(), 2);
    assert_eq!(module.exports[0].name.0, "add");
    assert!(matches!(module.exports[0].desc, ExportDesc::Func(x) if x.0 == 0));
    assert_eq!(module.exports[1].name.0, "_start");
    assert!(matches!(module.exports[1].desc, ExportDesc::Func(x) if x.0 == 1));
}

#[test]
fn test_add_module_bytes() {
    let module = generate(add_program()).unwrap();
    let bytes = emit(&module).unwrap();
    let expected: Vec<u8> = vec![
        0x00, 0x61, 0x73, 0x6d, // magic
        0x01, 0x00, 0x00, 0x00, // version
        0x01, 0x0a, 0x02, 0x60, 0x00, 0x00, 0x60, 0x02, 0x7f, 0x7f, 0x01, 0x7f, // types
        0x03, 0x03, 0x02, 0x01, 0x00, // functions
        0x07, 0x10, 0x02, 0x03, 0x61, 0x64, 0x64, 0x00, 0x00, 0x06, 0x5f, 0x73, 0x74, 0x61,
        0x72, 0x74, 0x00, 0x01, // exports
        0x0a, 0x0c, 0x02, 0x07, 0x00, 0x20, 0x00, 0x20, 0x01, 0x6a, 0x0b, 0x02, 0x00,
        0x0b, // code
    ];
    assert_eq!(bytes, expected);
}

#[test]
fn test_empty_program_module() {
    // An empty program still yields the implicit exported function.
    let module = generate(ast::Program { statements: vec![] }).unwrap();
    assert_eq!(module.types.len(), 1);
    assert_eq!(module.funcs.len(), 1);
    assert_eq!(module.exports.len(), 1);
    assert_eq!(module.exports[0].name.0, "_start");
    assert!(module.funcs[0].body.0.is_empty());
}

#[test]
fn test_unknown_identifier_fails() {
    // A body referencing a name that is not a parameter fails code
    // generation; no module is produced.
    let program = ast::Program {
        statements: vec![int_def(
            vec![],
            "f",
            &["x"],
            ast::Expr::BinOp {
                op: ast::BinOp::Add,
                lhs: Box::new(ast::Expr::Ident("x".to_string())),
                rhs: Box::new(ast::Expr::Ident("z".to_string())),
            },
        )],
    };
    assert_eq!(generate(program).unwrap_err(), CodeGenError::IdentNotFound);
}

#[test]
fn test_two_annotations_fail() {
    let program = ast::Program {
        statements: vec![int_def(
            vec![export_annotation("f"), export_annotation("g")],
            "f",
            &["x"],
            ast::Expr::Ident("x".to_string()),
        )],
    };
    assert_eq!(generate(program).unwrap_err(), CodeGenError::UnsupportedAnnotation);
}

#[test]
fn test_bad_annotation_shape_fails() {
    // An annotation that is not `export("name")`.
    let program = ast::Program {
        statements: vec![int_def(
            vec![ast::Expr::Ident("export".to_string())],
            "f",
            &["x"],
            ast::Expr::Ident("x".to_string()),
        )],
    };
    assert_eq!(generate(program).unwrap_err(), CodeGenError::UnsupportedAnnotation);

    // A call of something other than `export`.
    let program = ast::Program {
        statements: vec![int_def(
            vec![ast::Expr::Call {
                callee: Box::new(ast::Expr::Ident("inline".to_string())),
                args: vec![ast::Expr::StringLit("\"f\"".to_string())],
            }],
            "f",
            &["x"],
            ast::Expr::Ident("x".to_string()),
        )],
    };
    assert_eq!(generate(program).unwrap_err(), CodeGenError::UnsupportedAnnotation);
}

#[test]
fn test_unsupported_param_type_fails() {
    let program = ast::Program {
        statements: vec![ast::Stmt::Def {
            annotations: vec![],
            name: "f".to_string(),
            params: vec![("s".to_string(), "Text".to_string())],
            return_type: "Int".to_string(),
            body: Box::new(ast::Expr::IntLit("1".to_string())),
        }],
    };
    assert_eq!(generate(program).unwrap_err(), CodeGenError::UnsupportedParamType);
}

#[test]
fn test_unsupported_return_type_fails() {
    let program = ast::Program {
        statements: vec![ast::Stmt::Def {
            annotations: vec![],
            name: "f".to_string(),
            params: vec![],
            return_type: "Unit".to_string(),
            body: Box::new(ast::Expr::IntLit("1".to_string())),
        }],
    };
    assert_eq!(generate(program).unwrap_err(), CodeGenError::UnsupportedReturnType);
}

#[test]
fn test_malformed_int_literal_fails() {
    let program = ast::Program {
        statements: vec![int_def(
            vec![],
            "f",
            &[],
            ast::Expr::IntLit("2147483648".to_string()),
        )],
    };
    assert_eq!(generate(program).unwrap_err(), CodeGenError::MalformedIntLit);
}

#[test]
fn test_let_statement_fails() {
    let program = ast::Program {
        statements: vec![ast::Stmt::Let {
            name: "x".to_string(),
            type_: None,
            value: Box::new(ast::Expr::IntLit("1".to_string())),
        }],
    };
    assert_eq!(generate(program).unwrap_err(), CodeGenError::UnsupportedStmt);
}

#[test]
fn test_unsupported_expression_fails() {
    let program = ast::Program {
        statements: vec![int_def(
            vec![],
            "f",
            &[],
            ast::Expr::StringLit("\"abc\"".to_string()),
        )],
    };
    assert_eq!(generate(program).unwrap_err(), CodeGenError::UnsupportedExpr);
}

#[test]
fn test_top_level_expressions_compile_into_start() {
    let program = ast::Program {
        statements: vec![ast::Stmt::Expr(ast::Expr::BinOp {
            op: ast::BinOp::Mul,
            lhs: Box::new(ast::Expr::IntLit("6".to_string())),
            rhs: Box::new(ast::Expr::IntLit("7".to_string())),
        })],
    };
    let module = generate(program).unwrap();
    assert_eq!(module.funcs.len(), 1);
    assert!(matches!(module.funcs[0].body.0[..], [
        nio::wasm::Instr::I32Const(6),
        nio::wasm::Instr::I32Const(7),
        nio::wasm::Instr::I32Mul,
        nio::wasm::Instr::Drop,
    ]));
}

#[test]
fn test_round_trip_eval_matches_compiled() {
    // The same arithmetic, once through the tree-walking evaluator (as a
    // lambda applied to 4), once compiled and run by the executor.
    let source_value = {
        let program = nio::parser::Parser::parse("f = |x| x + 1\nf(4)").unwrap();
        let mut env = nio::eval::Env::new();
        match env.eval(&program).unwrap() {
            nio::eval::Object::Int { value } => value,
            _ => panic!("expected an integer"),
        }
    };
    let compiled_value = {
        let program = ast::Program {
            statements: vec![int_def(
                vec![export_annotation("f")],
                "f",
                &["x"],
                ast::Expr::BinOp {
                    op: ast::BinOp::Add,
                    lhs: Box::new(ast::Expr::Ident("x".to_string())),
                    rhs: Box::new(ast::Expr::IntLit("1".to_string())),
                },
            )],
        };
        let module = generate(program).unwrap();
        invoke(&module, "f", &vec![4]).unwrap()
    };
    assert_eq!(source_value, compiled_value as i64);
    assert_eq!(compiled_value, 5);
}

#[test]
fn test_compile_pipeline() {
    // The whole pipeline from source text: the program compiles to the
    // header followed by the four populated sections.
    let bytes = nio::compile("def add(x: Int, y: Int): Int = x + y").unwrap();
    assert_eq!(&bytes[0..8], &[0x00, 0x61, 0x73, 0x6d, 0x01, 0x00, 0x00, 0x00]);
    assert_eq!(nio::compile("+").unwrap_err(), "Expected Expr");
    assert_eq!(
        nio::compile("def f(x: Int): Int = z").unwrap_err(),
        "identifier not found"
    );
}
