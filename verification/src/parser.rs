//! The parser: a recursive-descent / operator-precedence parser from
//! tokens to the surface syntax.
//!
//! Parsing the surface syntax is a front-end convenience around the
//! compiler core; its behaviour is pinned by tests, while the token
//! stream underneath it is exactly specified by the lexer.  Every parse
//! consumes a unit of fuel per step, so parsing always terminates; the
//! fuel bound is far beyond what any input that fits in memory can reach.

use vstd::prelude::*;

use crate::ast::{BinOp, Expr, Program, Stmt};
use crate::lexer::{Lexer, Token};

verus! {

/// Binding strength of the infix operators, weakest first.
const PREC_LOWEST: u8 = 0;

const PREC_SUM: u8 = 1;

const PREC_PRODUCT: u8 = 2;

const PREC_CALL: u8 = 3;

/// The fuel budget of one parse: far beyond any reachable nesting.
const PARSE_FUEL: u64 = 0xffff_ffff_ffff_ffff;

/// The parser: the lexer it draws tokens from and one token of
/// lookahead.
pub struct Parser<'a> {
    lexer: Lexer<'a>,
    token: Token,
}

impl<'a> Parser<'a> {
    /// The input text, as a character sequence.
    pub closed spec fn spec_input(&self) -> Seq<char> {
        self.lexer.spec_input()
    }

    /// The position just past the lookahead token.
    pub closed spec fn spec_pos(&self) -> int {
        self.lexer.spec_pos()
    }

    /// The lookahead token.
    pub closed spec fn spec_token(&self) -> crate::lexer::SpecToken {
        crate::lexer::token_view(self.token)
    }

    /// The parser's lexer never stands past the end of its input.
    pub closed spec fn wf(&self) -> bool {
        self.lexer.spec_pos() <= self.lexer.spec_input().len()
    }

    /// A parser over the given input, with the first token already read.
    pub fn new(input: &'a str) -> (r: Parser<'a>)
        ensures
            r.wf(),
            r.spec_input() == input@,
            r.spec_token() == crate::lexer::spec_next_token(input@, 0).0,
            r.spec_pos() == crate::lexer::spec_next_token(input@, 0).1,
    {
        let mut lexer = Lexer::new(input);
        let token = lexer.next_token();
        Parser { lexer, token }
    }

    /// Read the next token into the lookahead.
    fn next_token(&mut self)
        requires
            old(self).wf(),
        ensures
            final(self).wf(),
            final(self).spec_input() == old(self).spec_input(),
            final(self).spec_token() == crate::lexer::spec_next_token(
                old(self).spec_input(),
                old(self).spec_pos(),
            ).0,
            final(self).spec_pos() == crate::lexer::spec_next_token(
                old(self).spec_input(),
                old(self).spec_pos(),
            ).1,
    {
        self.token = self.lexer.next_token();
    }

    /// The lookahead token.
    fn peek_token(&self) -> (t: &Token)
        ensures
            *t == self.token,
    {
        &self.token
    }

    /// The binding strength a token has as an infix operator.
    fn token_to_precedence(token: &Token) -> (r: u8) {
        match token {
            Token::Plus => PREC_SUM,
            Token::Minus => PREC_SUM,
            Token::Star => PREC_PRODUCT,
            Token::LParen => PREC_CALL,
            _ => PREC_LOWEST,
        }
    }

    /// The binding strength of the lookahead.
    fn peek_precedence(&self) -> (r: u8) {
        Self::token_to_precedence(&self.token)
    }

    /// Parse a whole input as a program.
    pub fn parse(input: &'a str) -> (r: Result<Program, &'static str>) {
        let mut p = Self::new(input);
        p.parse_program()
    }

    /// Parse statements separated by newlines or semicolons until the
    /// end of the input.
    pub fn parse_program(&mut self) -> (r: Result<Program, &'static str>)
        requires
            old(self).wf(),
        ensures
            final(self).wf(),
    {
        let mut statements: Vec<Stmt> = Vec::new();
        let mut fuel: u64 = PARSE_FUEL;
        loop
            invariant
                self.wf(),
            decreases fuel,
        {
            if fuel == 0 {
                return Err("program too long");
            }
            fuel = fuel - 1;
            match self.peek_token() {
                Token::Nl => {
                    self.next_token();
                },
                Token::Eof => {
                    break ;
                },
                _ => {
                    let stmt = self.parse_stmt(fuel)?;
                    statements.push(stmt);
                },
            }
        }
        Ok(Program { statements })
    }

    /// Parse one statement: a definition, or a bare expression, ended by
    /// a separator or the end of the input.  A `let` statement has no
    /// supported form.
    fn parse_stmt(&mut self, fuel: u64) -> (r: Result<Stmt, &'static str>)
        requires
            old(self).wf(),
        ensures
            final(self).wf(),
    {
        if fuel == 0 {
            return Err("statement too deeply nested");
        }
        let stmt = match self.peek_token() {
            Token::KwDef => {
                self.next_token();
                let name = self.parse_ident()?;
                match self.peek_token() {
                    Token::LParen => {
                        self.next_token();
                    },
                    _ => {
                        return Err("Expected (");
                    },
                }
                let mut params: Vec<(String, String)> = Vec::new();
                let mut loop_fuel: u64 = fuel;
                loop
                    invariant
                        self.wf(),
                    decreases loop_fuel,
                {
                    if loop_fuel == 0 {
                        return Err("parameter list too long");
                    }
                    loop_fuel = loop_fuel - 1;
                    let param_name = match self.peek_token() {
                        Token::Ident(param_name) => {
                            let param_name = param_name.clone();
                            self.next_token();
                            param_name
                        },
                        Token::RParen => {
                            self.next_token();
                            break ;
                        },
                        _ => {
                            return Err("Expected Ident or )");
                        },
                    };
                    match self.peek_token() {
                        Token::Colon => {
                            self.next_token();
                        },
                        _ => {
                            return Err("Expected :");
                        },
                    }
                    let param_type = match self.peek_token() {
                        Token::Ident(param_type) => {
                            let param_type = param_type.clone();
                            self.next_token();
                            param_type
                        },
                        _ => {
                            return Err("Expected Ident");
                        },
                    };
                    params.push((param_name, param_type));
                    match self.peek_token() {
                        Token::Comma => {
                            self.next_token();
                        },
                        Token::RParen => {
                            self.next_token();
                            break ;
                        },
                        _ => {
                            return Err("Expected , or )");
                        },
                    }
                }
                match self.peek_token() {
                    Token::Colon => {
                        self.next_token();
                    },
                    _ => {
                        return Err("Expected :");
                    },
                }
                let return_type = match self.peek_token() {
                    Token::Ident(return_type) => {
                        let return_type = return_type.clone();
                        self.next_token();
                        return_type
                    },
                    _ => {
                        return Err("Expected Ident");
                    },
                };
                match self.peek_token() {
                    Token::Eq => {
                        self.next_token();
                    },
                    _ => {
                        return Err("Expected =");
                    },
                }
                let body = self.parse_expr(PREC_LOWEST, fuel)?;
                Stmt::Def {
                    annotations: Vec::new(),
                    name,
                    params,
                    return_type,
                    body: Box::new(body),
                }
            },
            Token::KwLet => {
                return Err("let statements are not supported");
            },
            _ => {
                let expr = self.parse_expr(PREC_LOWEST, fuel)?;
                Stmt::Expr(expr)
            },
        };
        match self.peek_token() {
            Token::Semi => {
                self.next_token();
            },
            Token::Nl => {
                self.next_token();
            },
            Token::Eof => {},
            _ => {
                return Err("Expected ; or newline");
            },
        }
        Ok(stmt)
    }

    /// Parse one expression with operator precedence: a prefix form,
    /// then infix operators and call argument lists while they bind
    /// tighter than the surrounding context.
    fn parse_expr(&mut self, precedence: u8, fuel: u64) -> (r: Result<Expr, &'static str>)
        requires
            old(self).wf(),
        ensures
            final(self).wf(),
        decreases fuel,
    {
        if fuel == 0 {
            return Err("expression too deeply nested");
        }
        let mut expr = match self.peek_token() {
            Token::Ident(name) => {
                let name = name.clone();
                self.next_token();
                match self.peek_token() {
                    Token::Eq => {
                        self.next_token();
                        let rhs = self.parse_expr(PREC_LOWEST, fuel - 1)?;
                        Expr::Assign { lhs: name, rhs: Box::new(rhs) }
                    },
                    _ => Expr::Ident(name),
                }
            },
            Token::Int(raw) => {
                let raw = raw.clone();
                self.next_token();
                Expr::IntLit(raw)
            },
            Token::String(raw) => {
                let raw = raw.clone();
                self.next_token();
                Expr::StringLit(raw)
            },
            Token::LParen => {
                self.next_token();
                let inner = self.parse_expr(PREC_LOWEST, fuel - 1)?;
                match self.peek_token() {
                    Token::RParen => {
                        self.next_token();
                    },
                    _ => {
                        return Err("Expected )");
                    },
                }
                inner
            },
            Token::Or => {
                self.next_token();
                let mut params: Vec<String> = Vec::new();
                if let Token::Ident(name) = self.peek_token() {
                    let name = name.clone();
                    self.next_token();
                    params.push(name);
                    let mut loop_fuel: u64 = fuel;
                    loop
                        invariant
                            self.wf(),
                        decreases loop_fuel,
                    {
                        if loop_fuel == 0 {
                            return Err("parameter list too long");
                        }
                        loop_fuel = loop_fuel - 1;
                        match self.peek_token() {
                            Token::Comma => {
                                self.next_token();
                                if let Token::Ident(name) = self.peek_token() {
                                    let name = name.clone();
                                    self.next_token();
                                    params.push(name);
                                } else {
                                    return Err("Expected Ident");
                                }
                            },
                            _ => {
                                break ;
                            },
                        }
                    }
                }
                match self.peek_token() {
                    Token::Or => {
                        self.next_token();
                    },
                    _ => {
                        return Err("Expected |");
                    },
                }
                let body = self.parse_expr(PREC_LOWEST, fuel - 1)?;
                Expr::Lambda { params, body: Box::new(body) }
            },
            _ => {
                return Err("Expected Expr");
            },
        };
        let mut loop_fuel: u64 = fuel;
        loop
            invariant
                self.wf(),
                loop_fuel <= fuel,
            decreases loop_fuel,
        {
            if loop_fuel == 0 {
                return Err("expression too long");
            }
            loop_fuel = loop_fuel - 1;
            if !(precedence < self.peek_precedence()) {
                break ;
            }
            expr = match self.peek_token() {
                Token::Plus => {
                    self.next_token();
                    let rhs = self.parse_expr(PREC_SUM, loop_fuel)?;
                    Expr::BinOp { op: BinOp::Add, lhs: Box::new(expr), rhs: Box::new(rhs) }
                },
                Token::Minus => {
                    self.next_token();
                    let rhs = self.parse_expr(PREC_SUM, loop_fuel)?;
                    Expr::BinOp { op: BinOp::Sub, lhs: Box::new(expr), rhs: Box::new(rhs) }
                },
                Token::Star => {
                    self.next_token();
                    let rhs = self.parse_expr(PREC_PRODUCT, loop_fuel)?;
                    Expr::BinOp { op: BinOp::Mul, lhs: Box::new(expr), rhs: Box::new(rhs) }
                },
                Token::LParen => {
                    self.next_token();
                    match self.peek_token() {
                        Token::RParen => {
                            self.next_token();
                            Expr::Call { callee: Box::new(expr), args: Vec::new() }
                        },
                        _ => {
                            let mut args: Vec<Expr> = Vec::new();
                            let first = self.parse_expr(PREC_LOWEST, loop_fuel)?;
                            args.push(first);
                            let mut args_fuel: u64 = loop_fuel;
                            loop
                                invariant
                                    self.wf(),
                                    args_fuel < fuel,
                                decreases args_fuel,
                            {
                                if args_fuel == 0 {
                                    return Err("argument list too long");
                                }
                                args_fuel = args_fuel - 1;
                                match self.peek_token() {
                                    Token::Comma => {
                                        self.next_token();
                                        let arg = self.parse_expr(PREC_LOWEST, args_fuel)?;
                                        args.push(arg);
                                    },
                                    _ => {
                                        break ;
                                    },
                                }
                            }
                            match self.peek_token() {
                                Token::RParen => {
                                    self.next_token();
                                    Expr::Call { callee: Box::new(expr), args }
                                },
                                _ => {
                                    return Err("Expected , or )");
                                },
                            }
                        },
                    }
                },
                _ => {
                    break ;
                },
            };
        }
        Ok(expr)
    }

    /// Parse one identifier.
    fn parse_ident(&mut self) -> (r: Result<String, &'static str>)
        requires
            old(self).wf(),
        ensures
            final(self).wf(),
    {
        match self.peek_token() {
            Token::Ident(name) => {
                let name = name.clone();
                self.next_token();
                Ok(name)
            },
            _ => Err("Expected Ident"),
        }
    }
}

} // verus!
