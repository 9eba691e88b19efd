use css_lexer::token::{decimal_text, Token, TokenData};

#[test]
fn token_data_pairs_token_and_position() {
    let td = TokenData::new(Token::Colon, 17);
    assert_eq!(td.token, Token::Colon);
    assert_eq!(td.position, 17);
    assert_eq!(td, TokenData::new(Token::Colon, 17));
    assert_ne!(td, TokenData::new(Token::Colon, 18));
    assert_ne!(td, TokenData::new(Token::Semicolon, 17));
}

#[test]
fn whitespace_tokens_are_recognized() {
    assert!(TokenData::new(Token::Space, 0).is_whitespace());
    assert!(TokenData::new(Token::Tab, 0).is_whitespace());
    assert!(TokenData::new(Token::CarriageReturn, 0).is_whitespace());
    assert!(TokenData::new(Token::NewLine, 0).is_whitespace());

    assert!(!TokenData::new(Token::Equal, 0).is_whitespace());
    assert!(!TokenData::new(Token::EndOfFile, 0).is_whitespace());
    assert!(!TokenData::new(Token::Illegal("97".to_string()), 0).is_whitespace());
}

#[test]
fn eof_token_is_recognized() {
    assert!(TokenData::new(Token::EndOfFile, 0).is_eof());

    assert!(!TokenData::new(Token::Space, 0).is_eof());
    assert!(!TokenData::new(Token::DoubleSlash, 0).is_eof());
    assert!(!TokenData::new(Token::Identifier("px".to_string()), 0).is_eof());
}

#[test]
fn decimal_text_of_bytes() {
    assert_eq!(decimal_text(0), "0");
    assert_eq!(decimal_text(7), "7");
    assert_eq!(decimal_text(9), "9");
    assert_eq!(decimal_text(10), "10");
    assert_eq!(decimal_text(42), "42");
    assert_eq!(decimal_text(99), "99");
    assert_eq!(decimal_text(100), "100");
    assert_eq!(decimal_text(203), "203");
    assert_eq!(decimal_text(255), "255");
}
