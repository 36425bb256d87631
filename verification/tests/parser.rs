use nio::ast::BinOp::{Add, Mul};
use nio::ast::Expr::{Assign, BinOp, Call, Ident, IntLit, Lambda};
use nio::ast::Program;
use nio::ast::Stmt::{Def, Expr};
use nio::parser::Parser;

#[test]
fn test_parse() {
    assert_eq!(
        Parser::parse("123"),
        Ok(Program {
            statements: vec![Expr(IntLit("123".to_string()))]
        })
    );

    assert_eq!(
        Parser::parse("1 + 2 * 3 * 4"),
        Ok(Program {
            statements: vec![Expr(BinOp {
                op: Add,
                lhs: Box::new(IntLit("1".to_string())),
                rhs: Box::new(BinOp {
                    op: Mul,
                    lhs: Box::new(BinOp {
                        op: Mul,
                        lhs: Box::new(IntLit("2".to_string())),
                        rhs: Box::new(IntLit("3".to_string()))
                    }),
                    rhs: Box::new(IntLit("4".to_string()))
                })
            })]
        })
    );

    assert_eq!(
        Parser::parse("|x| x + 1"),
        Ok(Program {
            statements: vec![Expr(Lambda {
                params: vec!["x".to_string()],
                body: Box::new(BinOp {
                    op: Add,
                    lhs: Box::new(Ident("x".to_string())),
                    rhs: Box::new(IntLit("1".to_string()))
                })
            })]
        })
    );

    assert_eq!(
        Parser::parse("a + b(x, y)"),
        Ok(Program {
            statements: vec![Expr(BinOp {
                op: Add,
                lhs: Box::new(Ident("a".to_string())),
                rhs: Box::new(Call {
                    callee: Box::new(Ident("b".to_string())),
                    args: vec![Ident("x".to_string()), Ident("y".to_string()),]
                })
            })]
        })
    );
}

#[test]
fn test_parse_def() {
    assert_eq!(
        Parser::parse("def add(x: Int, y: Int): Int = x + y"),
        Ok(Program {
            statements: vec![Def {
                annotations: vec![],
                name: "add".to_string(),
                params: vec![
                    ("x".to_string(), "Int".to_string()),
                    ("y".to_string(), "Int".to_string()),
                ],
                return_type: "Int".to_string(),
                body: Box::new(BinOp {
                    op: Add,
                    lhs: Box::new(Ident("x".to_string())),
                    rhs: Box::new(Ident("y".to_string()))
                })
            }]
        })
    );
}

#[test]
fn test_parse_assignment_and_statements() {
    assert_eq!(
        Parser::parse("a = 1; a"),
        Ok(Program {
            statements: vec![
                Expr(Assign {
                    lhs: "a".to_string(),
                    rhs: Box::new(IntLit("1".to_string()))
                }),
                Expr(Ident("a".to_string())),
            ]
        })
    );
}

#[test]
fn test_parse_parentheses() {
    assert_eq!(
        Parser::parse("(1 + 2) * 3"),
        Ok(Program {
            statements: vec![Expr(BinOp {
                op: Mul,
                lhs: Box::new(BinOp {
                    op: Add,
                    lhs: Box::new(IntLit("1".to_string())),
                    rhs: Box::new(IntLit("2".to_string()))
                }),
                rhs: Box::new(IntLit("3".to_string()))
            })]
        })
    );
}

#[test]
fn test_parse_errors() {
    assert_eq!(Parser::parse("def f"), Err("Expected ("));
    assert_eq!(Parser::parse("def f(x"), Err("Expected :"));
    assert_eq!(Parser::parse("def f(x: Int"), Err("Expected , or )"));
    assert_eq!(Parser::parse("+"), Err("Expected Expr"));
    assert_eq!(Parser::parse("(1"), Err("Expected )"));
    assert_eq!(Parser::parse("let x = 1"), Err("let statements are not supported"));
    assert_eq!(Parser::parse("1 2"), Err("Expected ; or newline"));
}
