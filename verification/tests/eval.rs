use nio::eval::{Env, EvalError, Object};
use nio::parser::Parser;

/// Evaluate source text in a fresh environment.
fn eval_source(source: &str) -> Result<Object, EvalError> {
    let program = Parser::parse(source).unwrap();
    let mut env = Env::new();
    env.eval(&program)
}

fn expect_int(source: &str) -> i64 {
    match eval_source(source).unwrap() {
        Object::Int { value } => value,
        other => panic!("expected an integer, got {:?}", other),
    }
}

#[test]
fn test_eval_arithmetic() {
    assert_eq!(expect_int("12 + 34 * 56"), 1916);
    assert_eq!(expect_int("1 + 2 * 3 * 4"), 25);
    assert_eq!(expect_int("10 - 3 - 2"), 5);
    assert_eq!(expect_int("(1 + 2) * 3"), 9);
}

#[test]
fn test_eval_last_statement_wins() {
    assert_eq!(expect_int("1; 2; 3"), 3);
}

#[test]
fn test_eval_empty_program() {
    assert!(matches!(eval_source("").unwrap(), Object::Nil));
}

#[test]
fn test_eval_assignment_and_ident() {
    assert_eq!(expect_int("a = 20\na + 1"), 21);
    assert_eq!(expect_int("a = 1; a = a + 1; a"), 2);
}

#[test]
fn test_eval_lambda_call() {
    assert_eq!(expect_int("add = |x, y| x + y\nadd(3, 4)"), 7);
    assert_eq!(expect_int("twice = |f, x| f(f(x))\ninc = |x| x + 1\ntwice(inc, 5)"), 7);
}

#[test]
fn test_eval_closure_captures_environment() {
    // The closure sees a binding made after its definition, as the frame
    // it captured is shared.
    assert_eq!(expect_int("f = |x| x + a\na = 10\nf(1)"), 11);
}

#[test]
fn test_eval_string_literal() {
    match eval_source("\"hello\"").unwrap() {
        Object::String { value } => assert_eq!(value.iter().collect::<String>(), "hello"),
        other => panic!("expected a string, got {:?}", other),
    }
}

#[test]
fn test_eval_ident_not_found() {
    assert_eq!(eval_source("missing").unwrap_err(), EvalError::IdentNotFound);
}

#[test]
fn test_eval_type_mismatch() {
    assert_eq!(eval_source("\"a\" + 1").unwrap_err(), EvalError::TypeMismatch);
}

#[test]
fn test_eval_callee_not_a_function() {
    assert_eq!(eval_source("a = 1\na(2)").unwrap_err(), EvalError::NotAFunction);
}

#[test]
fn test_eval_arguments_error() {
    assert_eq!(
        eval_source("f = |x, y| x + y\nf(1)").unwrap_err(),
        EvalError::ArgumentsError
    );
}

#[test]
fn test_eval_wrapping_arithmetic() {
    assert_eq!(
        expect_int("9223372036854775807 + 1"),
        i64::MIN,
    );
}
