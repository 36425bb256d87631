use nio::ast;
use nio::ast_to_ir::lower_program;
use nio::ir;
use nio::typecheck::typecheck;

#[test]
fn test_resolve_types() {
    // `Int` resolves; any other name stays unresolved for code
    // generation to report.
    let program = ast::Program {
        statements: vec![ast::Stmt::Def {
            annotations: vec![],
            name: "f".to_string(),
            params: vec![
                ("x".to_string(), "Int".to_string()),
                ("s".to_string(), "Text".to_string()),
            ],
            return_type: "Int".to_string(),
            body: Box::new(ast::Expr::Ident("x".to_string())),
        }],
    };
    let mut ir_program = lower_program(&program);
    assert!(typecheck(&mut ir_program).is_ok());
    match &ir_program.statements[0] {
        ir::Stmt::Def { params, return_type, .. } => {
            assert_eq!(params[0].1, ir::Type::Int);
            assert_eq!(params[1].1, ir::Type::Unresolved("Text".to_string()));
            assert_eq!(*return_type, ir::Type::Int);
        },
        _ => panic!("expected a definition"),
    }
}

#[test]
fn test_resolution_leaves_other_statements() {
    let program = ast::Program {
        statements: vec![ast::Stmt::Expr(ast::Expr::IntLit("1".to_string()))],
    };
    let mut ir_program = lower_program(&program);
    assert!(typecheck(&mut ir_program).is_ok());
    assert_eq!(
        ir_program.statements[0],
        ir::Stmt::Expr(ir::Expr::IntLit("1".to_string()))
    );
}
