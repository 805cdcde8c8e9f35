use jlox::scanner::scan_tokens;
use jlox::token::TokenType;

#[test]
fn it_works() {
    let tokens = match scan_tokens(&b"  ({}) ".to_vec()) {
        Ok(ts) => ts,
        Err(_) => panic!("expected tokens"),
    };
    assert_eq!(tokens[0].lexeme, b"(".to_vec());
}

#[test]
fn scans_keywords_identifiers_and_numbers() {
    let tokens = match scan_tokens(&b"var x = 1.5; // c\nprint x;".to_vec()) {
        Ok(ts) => ts,
        Err(_) => panic!("expected tokens"),
    };
    assert!(matches!(tokens[0].token_type, TokenType::Var));
    assert!(matches!(tokens[1].token_type, TokenType::Identifier));
    assert_eq!(tokens[1].lexeme, b"x".to_vec());
    assert!(matches!(tokens[2].token_type, TokenType::Equal));
    match &tokens[3].token_type {
        TokenType::Number(bits) => assert_eq!(*bits, 1.5f64.to_bits()),
        _ => panic!("expected a number token"),
    }
    assert!(matches!(tokens[4].token_type, TokenType::Semicolon));
    assert!(matches!(tokens[5].token_type, TokenType::Print));
    let last = &tokens[tokens.len() - 1];
    assert!(matches!(last.token_type, TokenType::Eof));
}

#[test]
fn scans_strings_with_newlines() {
    let tokens = match scan_tokens(&b"\"a\nb\"".to_vec()) {
        Ok(ts) => ts,
        Err(_) => panic!("expected tokens"),
    };
    match &tokens[0].token_type {
        TokenType::Str(p) => assert_eq!(p, &b"a\nb".to_vec()),
        _ => panic!("expected a string token"),
    }
}

#[test]
fn unterminated_string_is_an_error() {
    let err = match scan_tokens(&b"\"open".to_vec()) {
        Err(e) => e,
        Ok(_) => panic!("expected an error"),
    };
    assert_eq!(err.message(), b"Unterminated string at line 1".to_vec());
}

#[test]
fn unknown_character_is_an_error() {
    let err = match scan_tokens(&b"@".to_vec()) {
        Err(e) => e,
        Ok(_) => panic!("expected an error"),
    };
    assert_eq!(err.message(), b"scanner can't handle @".to_vec());
}
