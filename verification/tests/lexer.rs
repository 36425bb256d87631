use nio::lexer::{Lexer, Token};

#[test]
fn test_next_token() {
    let code = "12 + 34 * 56";
    let mut l = Lexer::new(code);
    assert_eq!(l.next_token(), Token::Int("12".to_string()));
    assert_eq!(l.next_token(), Token::Plus);
    assert_eq!(l.next_token(), Token::Int("34".to_string()));
    assert_eq!(l.next_token(), Token::Star);
    assert_eq!(l.next_token(), Token::Int("56".to_string()));
    assert_eq!(l.next_token(), Token::Eof);
}

#[test]
fn lexer_test_next_token() {
    let code = "12 + 34 * 56";
    let mut l = Lexer::new(code);
    assert_eq!(l.next_token(), Token::Int("12".to_string()));
    assert_eq!(l.next_token(), Token::Plus);
    assert_eq!(l.next_token(), Token::Int("34".to_string()));
    assert_eq!(l.next_token(), Token::Star);
    assert_eq!(l.next_token(), Token::Int("56".to_string()));
    assert_eq!(l.next_token(), Token::Eof);
}

#[test]
fn test_keywords_and_idents() {
    let mut l = Lexer::new("def add let x1 _y");
    assert_eq!(l.next_token(), Token::KwDef);
    assert_eq!(l.next_token(), Token::Ident("add".to_string()));
    assert_eq!(l.next_token(), Token::KwLet);
    assert_eq!(l.next_token(), Token::Ident("x1".to_string()));
    assert_eq!(l.next_token(), Token::Ident("_y".to_string()));
    assert_eq!(l.next_token(), Token::Eof);
}

#[test]
fn test_operators() {
    let mut l = Lexer::new("+ - -> * / % ^ ! & | = == => > >= < <= ( ) { } [ ] . , ; :");
    assert_eq!(l.next_token(), Token::Plus);
    assert_eq!(l.next_token(), Token::Minus);
    assert_eq!(l.next_token(), Token::RArrow);
    assert_eq!(l.next_token(), Token::Star);
    assert_eq!(l.next_token(), Token::Slash);
    assert_eq!(l.next_token(), Token::Percent);
    assert_eq!(l.next_token(), Token::Caret);
    assert_eq!(l.next_token(), Token::Not);
    assert_eq!(l.next_token(), Token::And);
    assert_eq!(l.next_token(), Token::Or);
    assert_eq!(l.next_token(), Token::Eq);
    assert_eq!(l.next_token(), Token::EqEq);
    assert_eq!(l.next_token(), Token::FatArrow);
    assert_eq!(l.next_token(), Token::Gt);
    assert_eq!(l.next_token(), Token::Ge);
    assert_eq!(l.next_token(), Token::Lt);
    assert_eq!(l.next_token(), Token::Le);
    assert_eq!(l.next_token(), Token::LParen);
    assert_eq!(l.next_token(), Token::RParen);
    assert_eq!(l.next_token(), Token::LBrace);
    assert_eq!(l.next_token(), Token::RBrace);
    assert_eq!(l.next_token(), Token::LBracket);
    assert_eq!(l.next_token(), Token::RBracket);
    assert_eq!(l.next_token(), Token::Dot);
    assert_eq!(l.next_token(), Token::Comma);
    assert_eq!(l.next_token(), Token::Semi);
    assert_eq!(l.next_token(), Token::Colon);
    assert_eq!(l.next_token(), Token::Eof);
}

#[test]
fn test_string_token_keeps_quotes() {
    let mut l = Lexer::new("\"add\"");
    assert_eq!(l.next_token(), Token::String("\"add\"".to_string()));
    assert_eq!(l.next_token(), Token::Eof);
}

#[test]
fn test_string_token_unterminated() {
    let mut l = Lexer::new("\"abc");
    assert_eq!(l.next_token(), Token::Unexpected('"'));
}

#[test]
fn test_string_token_escape_rejected() {
    let mut l = Lexer::new("\"a\\n\"");
    assert_eq!(l.next_token(), Token::Unexpected('\\'));
}

#[test]
fn test_unexpected_char() {
    let mut l = Lexer::new("@");
    assert_eq!(l.next_token(), Token::Unexpected('@'));
    assert_eq!(l.next_token(), Token::Eof);
}

#[test]
fn test_newline_token_and_offset() {
    let mut l = Lexer::new("1\n2");
    assert_eq!(l.offset(), 0);
    assert_eq!(l.next_token(), Token::Int("1".to_string()));
    assert_eq!(l.offset(), 1);
    assert_eq!(l.next_token(), Token::Nl);
    assert_eq!(l.next_token(), Token::Int("2".to_string()));
    assert_eq!(l.next_token(), Token::Eof);
    assert_eq!(l.offset(), 3);
}
