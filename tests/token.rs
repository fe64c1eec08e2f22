use monkey_tokens::Token;

#[test]
fn equal_tokens_compare_equal() {
    assert_eq!(Token::Ident("x".to_string()), Token::Ident("x".to_string()));
    assert_eq!(Token::StringLiteral("hi".to_string()), Token::StringLiteral("hi".to_string()));
    assert_eq!(Token::IntLiteral(5), Token::IntLiteral(5));
    assert_eq!(Token::BoolLiteral(true), Token::BoolLiteral(true));
    assert_eq!(Token::EOF, Token::EOF);
    assert_eq!(Token::Illegal, Token::Illegal);
    assert_eq!(Token::RBracket, Token::RBracket);
}

#[test]
fn different_payloads_or_variants_differ() {
    assert_ne!(Token::Ident("x".to_string()), Token::Ident("y".to_string()));
    assert_ne!(Token::Ident("x".to_string()), Token::StringLiteral("x".to_string()));
    assert_ne!(Token::IntLiteral(5), Token::IntLiteral(6));
    assert_ne!(Token::BoolLiteral(true), Token::BoolLiteral(false));
    assert_ne!(Token::Plus, Token::Minus);
    assert_ne!(Token::EOF, Token::Illegal);
    assert_ne!(Token::Equal, Token::Assign);
}

#[test]
fn a_token_is_one_unit_of_input() {
    assert_eq!(Token::EOF.input_len(), 1);
    assert_eq!(Token::Ident("abc".to_string()).input_len(), 1);
}
