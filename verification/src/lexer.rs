//! The lexer: turns source text into tokens, one call per token.
//!
//! The token stream is a pure function of the input text and the current
//! position, stated by [`spec_next_token`]; `next_token` is proved to
//! produce exactly that token and to leave the lexer at exactly that
//! position.

use vstd::prelude::*;

verus! {

/// A token of the surface syntax.  Identifier, integer and string tokens
/// carry their source text; string tokens keep their surrounding quotes.
#[derive(Debug, PartialEq)]
pub enum Token {
    Ident(String),
    Int(String),
    String(String),
    Plus,  // +
    Minus,  // -
    Star,  // *
    Slash,  // /
    Percent,  // %
    Caret,  // ^
    Not,  // !
    And,  // &
    Or,  // |
    Eq,  // =
    EqEq,  // ==
    Gt,  // >
    Lt,  // <
    Ge,  // >=
    Le,  // <=
    RArrow,  // ->
    FatArrow,  // =>
    LParen,  // (
    RParen,  // )
    LBrace,  // [
    RBrace,  // ]
    LBracket,  // {
    RBracket,  // }
    Dot,  // .
    Comma,  // ,
    Semi,  // ;
    Colon,  // :
    Nl,  // newline
    Eof,  // end-of-file
    KwDef,  // def
    KwLet,  // let
    Unexpected(char),
}

/// The specification-level shape of a token: the same cases as [`Token`],
/// with text as character sequences.
pub enum SpecToken {
    Ident(Seq<char>),
    Int(Seq<char>),
    String(Seq<char>),
    Plus,
    Minus,
    Star,
    Slash,
    Percent,
    Caret,
    Not,
    And,
    Or,
    Eq,
    EqEq,
    Gt,
    Lt,
    Ge,
    Le,
    RArrow,
    FatArrow,
    LParen,
    RParen,
    LBrace,
    RBrace,
    LBracket,
    RBracket,
    Dot,
    Comma,
    Semi,
    Colon,
    Nl,
    Eof,
    KwDef,
    KwLet,
    Unexpected(char),
}

/// The specification-level reading of a token value.
pub open spec fn token_view(t: Token) -> SpecToken {
    match t {
        Token::Ident(s) => SpecToken::Ident(s@),
        Token::Int(s) => SpecToken::Int(s@),
        Token::String(s) => SpecToken::String(s@),
        Token::Plus => SpecToken::Plus,
        Token::Minus => SpecToken::Minus,
        Token::Star => SpecToken::Star,
        Token::Slash => SpecToken::Slash,
        Token::Percent => SpecToken::Percent,
        Token::Caret => SpecToken::Caret,
        Token::Not => SpecToken::Not,
        Token::And => SpecToken::And,
        Token::Or => SpecToken::Or,
        Token::Eq => SpecToken::Eq,
        Token::EqEq => SpecToken::EqEq,
        Token::Gt => SpecToken::Gt,
        Token::Lt => SpecToken::Lt,
        Token::Ge => SpecToken::Ge,
        Token::Le => SpecToken::Le,
        Token::RArrow => SpecToken::RArrow,
        Token::FatArrow => SpecToken::FatArrow,
        Token::LParen => SpecToken::LParen,
        Token::RParen => SpecToken::RParen,
        Token::LBrace => SpecToken::LBrace,
        Token::RBrace => SpecToken::RBrace,
        Token::LBracket => SpecToken::LBracket,
        Token::RBracket => SpecToken::RBracket,
        Token::Dot => SpecToken::Dot,
        Token::Comma => SpecToken::Comma,
        Token::Semi => SpecToken::Semi,
        Token::Colon => SpecToken::Colon,
        Token::Nl => SpecToken::Nl,
        Token::Eof => SpecToken::Eof,
        Token::KwDef => SpecToken::KwDef,
        Token::KwLet => SpecToken::KwLet,
        Token::Unexpected(c) => SpecToken::Unexpected(c),
    }
}

/// Whether a character can begin an identifier.
pub open spec fn is_ident_start(c: char) -> bool {
    ('a' <= c && c <= 'z') || ('A' <= c && c <= 'Z') || c == '_'
}

/// Whether a character can continue an identifier.
pub open spec fn is_ident_cont(c: char) -> bool {
    is_ident_start(c) || ('0' <= c && c <= '9')
}

/// Whether a character is skipped between tokens.
pub open spec fn is_lex_ws(c: char) -> bool {
    c == ' ' || c == '\t'
}

/// The first position at or after `pos` that does not hold whitespace.
pub open spec fn ws_end(s: Seq<char>, pos: int) -> int
    decreases s.len() - pos,
{
    if pos < s.len() && is_lex_ws(s[pos]) {
        ws_end(s, pos + 1)
    } else {
        pos
    }
}

/// The first position at or after `pos` that cannot continue an
/// identifier.
pub open spec fn ident_end(s: Seq<char>, pos: int) -> int
    decreases s.len() - pos,
{
    if pos < s.len() && is_ident_cont(s[pos]) {
        ident_end(s, pos + 1)
    } else {
        pos
    }
}

/// The first position at or after `pos` that does not hold a decimal
/// digit.
pub open spec fn int_end(s: Seq<char>, pos: int) -> int
    decreases s.len() - pos,
{
    if pos < s.len() && '0' <= s[pos] && s[pos] <= '9' {
        int_end(s, pos + 1)
    } else {
        pos
    }
}

/// The first position at or after `pos` that ends a string scan: a
/// backslash, a closing quote, or the end of the input.
pub open spec fn str_scan(s: Seq<char>, pos: int) -> int
    decreases s.len() - pos,
{
    if pos < s.len() && s[pos] != '\\' && s[pos] != '"' {
        str_scan(s, pos + 1)
    } else {
        pos
    }
}

/// The token beginning at `pos` (after skipping whitespace), and the
/// position just past it.
pub open spec fn spec_next_token(s: Seq<char>, pos0: int) -> (SpecToken, int) {
    let pos = ws_end(s, pos0);
    if pos >= s.len() {
        (SpecToken::Eof, pos)
    } else {
        let c = s[pos];
        if is_ident_start(c) {
            let end = ident_end(s, pos + 1);
            let text = s.subrange(pos, end);
            if text == "def"@ {
                (SpecToken::KwDef, end)
            } else if text == "let"@ {
                (SpecToken::KwLet, end)
            } else {
                (SpecToken::Ident(text), end)
            }
        } else if '1' <= c && c <= '9' {
            let end = int_end(s, pos + 1);
            (SpecToken::Int(s.subrange(pos, end)), end)
        } else if c == '"' {
            let e = str_scan(s, pos + 1);
            if e >= s.len() {
                (SpecToken::Unexpected('"'), e)
            } else if s[e] == '\\' {
                (SpecToken::Unexpected('\\'), e)
            } else {
                (SpecToken::String(s.subrange(pos, e + 1)), e + 1)
            }
        } else if c == '+' {
            (SpecToken::Plus, pos + 1)
        } else if c == '-' {
            if pos + 1 < s.len() && s[pos + 1] == '>' {
                (SpecToken::RArrow, pos + 2)
            } else {
                (SpecToken::Minus, pos + 1)
            }
        } else if c == '*' {
            (SpecToken::Star, pos + 1)
        } else if c == '/' {
            (SpecToken::Slash, pos + 1)
        } else if c == '%' {
            (SpecToken::Percent, pos + 1)
        } else if c == '^' {
            (SpecToken::Caret, pos + 1)
        } else if c == '!' {
            (SpecToken::Not, pos + 1)
        } else if c == '&' {
            (SpecToken::And, pos + 1)
        } else if c == '|' {
            (SpecToken::Or, pos + 1)
        } else if c == '=' {
            if pos + 1 < s.len() && s[pos + 1] == '=' {
                (SpecToken::EqEq, pos + 2)
            } else if pos + 1 < s.len() && s[pos + 1] == '>' {
                (SpecToken::FatArrow, pos + 2)
            } else {
                (SpecToken::Eq, pos + 1)
            }
        } else if c == '>' {
            if pos + 1 < s.len() && s[pos + 1] == '=' {
                (SpecToken::Ge, pos + 2)
            } else {
                (SpecToken::Gt, pos + 1)
            }
        } else if c == '<' {
            if pos + 1 < s.len() && s[pos + 1] == '=' {
                (SpecToken::Le, pos + 2)
            } else {
                (SpecToken::Lt, pos + 1)
            }
        } else if c == '(' {
            (SpecToken::LParen, pos + 1)
        } else if c == ')' {
            (SpecToken::RParen, pos + 1)
        } else if c == '{' {
            (SpecToken::LBrace, pos + 1)
        } else if c == '}' {
            (SpecToken::RBrace, pos + 1)
        } else if c == '[' {
            (SpecToken::LBracket, pos + 1)
        } else if c == ']' {
            (SpecToken::RBracket, pos + 1)
        } else if c == '.' {
            (SpecToken::Dot, pos + 1)
        } else if c == ',' {
            (SpecToken::Comma, pos + 1)
        } else if c == ';' {
            (SpecToken::Semi, pos + 1)
        } else if c == ':' {
            (SpecToken::Colon, pos + 1)
        } else if c == '\n' {
            (SpecToken::Nl, pos + 1)
        } else {
            (SpecToken::Unexpected(c), pos + 1)
        }
    }
}

/// The lexer: the input text and the current position, counted in
/// characters.
pub struct Lexer<'a> {
    input: &'a str,
    pos: usize,
}

impl<'a> Lexer<'a> {
    /// The input text, as a character sequence.
    pub closed spec fn spec_input(&self) -> Seq<char> {
        self.input@
    }

    /// The current position, counted in characters.
    pub closed spec fn spec_pos(&self) -> int {
        self.pos as int
    }

    /// A lexer at the start of the given input.
    pub fn new(input: &'a str) -> (r: Lexer<'a>)
        ensures
            r.spec_input() == input@,
            r.spec_pos() == 0,
    {
        Lexer { input, pos: 0 }
    }

    /// The current position, counted in characters from the start of the
    /// input.
    pub fn offset(&self) -> (r: usize)
        ensures
            r == self.spec_pos(),
    {
        self.pos
    }

    /// The character at the current position, if any.
    fn peek_char(&self) -> (c: Option<char>)
        requires
            self.pos <= self.input@.len(),
        ensures
            self.pos < self.input@.len() ==> c == Some(self.input@[self.pos as int]),
            self.pos >= self.input@.len() ==> c is None,
    {
        if self.pos < self.input.unicode_len() {
            Some(self.input.get_char(self.pos))
        } else {
            None
        }
    }

    /// Advance past the current character, if any.
    fn next_char(&mut self)
        requires
            old(self).pos <= old(self).input@.len(),
        ensures
            final(self).input == old(self).input,
            old(self).pos < old(self).input@.len() ==> final(self).pos == old(self).pos + 1,
            old(self).pos >= old(self).input@.len() ==> final(self).pos == old(self).pos,
    {
        if self.pos < self.input.unicode_len() {
            self.pos = self.pos + 1;
        }
    }

    /// Skip whitespace between tokens.
    fn skip_whitespace(&mut self)
        requires
            old(self).pos <= old(self).input@.len(),
        ensures
            final(self).input == old(self).input,
            final(self).pos == ws_end(old(self).input@, old(self).pos as int),
            final(self).pos <= final(self).input@.len(),
    {
        let ghost inp0 = self.input;
        let ghost s = self.input@;
        let ghost pos0 = self.pos as int;
        loop
            invariant
                self.input == inp0,
                self.input@ == s,
                self.pos <= s.len(),
                ws_end(s, pos0) == ws_end(s, self.pos as int),
            ensures
                self.input == inp0,
                self.input@ == s,
                self.pos == ws_end(s, pos0),
                self.pos <= s.len(),
            decreases s.len() - self.pos,
        {
            let c = self.peek_char();
            match c {
                Some(ch) => {
                    if ch == ' ' || ch == '\t' {
                        self.next_char();
                    } else {
                        break ;
                    }
                },
                None => {
                    break ;
                },
            }
        }
    }

    /// Produce the next token and advance past it.
    pub fn next_token(&mut self) -> (t: Token)
        requires
            old(self).spec_pos() <= old(self).spec_input().len(),
        ensures
            final(self).spec_input() == old(self).spec_input(),
            final(self).spec_pos() <= final(self).spec_input().len(),
            token_view(t) == spec_next_token(old(self).spec_input(), old(self).spec_pos()).0,
            final(self).spec_pos() == spec_next_token(old(self).spec_input(), old(self).spec_pos()).1,
    {
        let ghost inp0 = self.input;
        let ghost s = self.input@;
        self.skip_whitespace();
        let c = match self.peek_char() {
            Some(c) => c,
            None => {
                return Token::Eof;
            },
        };
        if ('a' <= c && c <= 'z') || ('A' <= c && c <= 'Z') || c == '_' {
            let start = self.pos;
            self.next_char();
            loop
                invariant
                    self.input == inp0,
                    self.input@ == s,
                    start < self.pos <= s.len(),
                    ident_end(s, start + 1) == ident_end(s, self.pos as int),
                ensures
                    self.input == inp0,
                    self.input@ == s,
                    start < self.pos <= s.len(),
                    self.pos == ident_end(s, start + 1),
                decreases s.len() - self.pos,
            {
                let c = self.peek_char();
                match c {
                    Some(ch) => {
                        if ('a' <= ch && ch <= 'z') || ('A' <= ch && ch <= 'Z') || ('0' <= ch && ch
                            <= '9') || ch == '_' {
                            self.next_char();
                        } else {
                            break ;
                        }
                    },
                    None => {
                        break ;
                    },
                }
            }
            let text = self.input.substring_char(start, self.pos);
            let owned = String::from_str(text);
            if owned == String::from_str("def") {
                Token::KwDef
            } else if owned == String::from_str("let") {
                Token::KwLet
            } else {
                Token::Ident(owned)
            }
        } else if '1' <= c && c <= '9' {
            let start = self.pos;
            self.next_char();
            loop
                invariant
                    self.input == inp0,
                    self.input@ == s,
                    start < self.pos <= s.len(),
                    int_end(s, start + 1) == int_end(s, self.pos as int),
                ensures
                    self.input == inp0,
                    self.input@ == s,
                    start < self.pos <= s.len(),
                    self.pos == int_end(s, start + 1),
                decreases s.len() - self.pos,
            {
                let c = self.peek_char();
                match c {
                    Some(ch) => {
                        if '0' <= ch && ch <= '9' {
                            self.next_char();
                        } else {
                            break ;
                        }
                    },
                    None => {
                        break ;
                    },
                }
            }
            let text = self.input.substring_char(start, self.pos);
            Token::Int(String::from_str(text))
        } else if c == '"' {
            let start = self.pos;
            self.next_char();
            loop
                invariant
                    self.input == inp0,
                    self.input@ == s,
                    start < self.pos <= s.len(),
                    str_scan(s, start + 1) == str_scan(s, self.pos as int),
                ensures
                    self.input == inp0,
                    self.input@ == s,
                    start < self.pos <= s.len(),
                    self.pos == str_scan(s, start + 1),
                decreases s.len() - self.pos,
            {
                let c = self.peek_char();
                match c {
                    Some(ch) => {
                        if ch != '\\' && ch != '"' {
                            self.next_char();
                        } else {
                            break ;
                        }
                    },
                    None => {
                        break ;
                    },
                }
            }
            match self.peek_char() {
                None => Token::Unexpected('"'),
                Some(ch) => {
                    if ch == '\\' {
                        Token::Unexpected('\\')
                    } else {
                        self.next_char();
                        let text = self.input.substring_char(start, self.pos);
                        Token::String(String::from_str(text))
                    }
                },
            }
        } else if c == '+' {
            self.next_char();
            Token::Plus
        } else if c == '-' {
            self.next_char();
            match self.peek_char() {
                Some('>') => {
                    self.next_char();
                    Token::RArrow
                },
                _ => Token::Minus,
            }
        } else if c == '*' {
            self.next_char();
            Token::Star
        } else if c == '/' {
            self.next_char();
            Token::Slash
        } else if c == '%' {
            self.next_char();
            Token::Percent
        } else if c == '^' {
            self.next_char();
            Token::Caret
        } else if c == '!' {
            self.next_char();
            Token::Not
        } else if c == '&' {
            self.next_char();
            Token::And
        } else if c == '|' {
            self.next_char();
            Token::Or
        } else if c == '=' {
            self.next_char();
            match self.peek_char() {
                Some('=') => {
                    self.next_char();
                    Token::EqEq
                },
                Some('>') => {
                    self.next_char();
                    Token::FatArrow
                },
                _ => Token::Eq,
            }
        } else if c == '>' {
            self.next_char();
            match self.peek_char() {
                Some('=') => {
                    self.next_char();
                    Token::Ge
                },
                _ => Token::Gt,
            }
        } else if c == '<' {
            self.next_char();
            match self.peek_char() {
                Some('=') => {
                    self.next_char();
                    Token::Le
                },
                _ => Token::Lt,
            }
        } else if c == '(' {
            self.next_char();
            Token::LParen
        } else if c == ')' {
            self.next_char();
            Token::RParen
        } else if c == '{' {
            self.next_char();
            Token::LBrace
        } else if c == '}' {
            self.next_char();
            Token::RBrace
        } else if c == '[' {
            self.next_char();
            Token::LBracket
        } else if c == ']' {
            self.next_char();
            Token::RBracket
        } else if c == '.' {
            self.next_char();
            Token::Dot
        } else if c == ',' {
            self.next_char();
            Token::Comma
        } else if c == ';' {
            self.next_char();
            Token::Semi
        } else if c == ':' {
            self.next_char();
            Token::Colon
        } else if c == '\n' {
            self.next_char();
            Token::Nl
        } else {
            self.next_char();
            Token::Unexpected(c)
        }
    }
}

} // verus!
