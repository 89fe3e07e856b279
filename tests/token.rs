use rsvandior::render::to_decimal;
use rsvandior::{CodeSourceLocation, Token, TokenList, TokenType};

#[test]
fn test_new_code_source_location() {
    let location = CodeSourceLocation::new("main.rs".to_string(), 10, 20);
    assert_eq!(location.file_name, "main.rs");
    assert_eq!(location.line, 10);
    assert_eq!(location.column, 20);
}

#[test]
fn test_token_new() {
    let token = Token::new(
        TokenType::Identifier,
        "test".to_string(),
        CodeSourceLocation::new("test".to_string(), 1, 1),
    );
    assert_eq!(token.token_type, TokenType::Identifier);
    assert_eq!(token.value, "test");
    assert_eq!(token.source_location.file_name, "test");
    assert_eq!(token.source_location.line, 1);
    assert_eq!(token.source_location.column, 1);
}

#[test]
fn test_token_new_with_empty_value() {
    let token = Token::new_with_empty_value(
        TokenType::Identifier,
        CodeSourceLocation::new("test".to_string(), 1, 1),
    );
    assert_eq!(token.token_type, TokenType::Identifier);
    assert_eq!(token.value, "");
    assert_eq!(token.source_location.file_name, "test");
    assert_eq!(token.source_location.line, 1);
    assert_eq!(token.source_location.column, 1);
}

#[test]
fn test_token_is_type() {
    let token = Token::new(
        TokenType::Identifier,
        "test".to_string(),
        CodeSourceLocation::new("test".to_string(), 1, 1),
    );
    assert!(token.is_type(&TokenType::Identifier));
    assert!(!token.is_type(&TokenType::Integer));
}

#[test]
fn test_token_is_type_any_of() {
    let token = Token::new(
        TokenType::Identifier,
        "test".to_string(),
        CodeSourceLocation::new("test".to_string(), 1, 1),
    );
    assert!(token.is_type_any_of(&[TokenType::Identifier, TokenType::Integer]));
    assert!(!token.is_type_any_of(&[TokenType::Integer]));
}

#[test]
fn is_type_any_of_empty_list_is_false() {
    let token = Token::new(
        TokenType::Comma,
        ",".to_string(),
        CodeSourceLocation::new("f".to_string(), 1, 0),
    );
    assert!(!token.is_type_any_of(&[]));
}

#[test]
fn token_list_starts_empty() {
    let list = TokenList::new("prog.vd".to_string());
    assert_eq!(list.file_name, "prog.vd");
    assert!(list.tokens.is_empty());
}

#[test]
fn test_to_compact_string() {
    let location = CodeSourceLocation::new("lib.rs".to_string(), 5, 15);
    let compact_str = location.to_compact_string();
    assert_eq!(compact_str, "(fn: lib.rs, ln: 5, cln: 15)");
}

#[test]
fn code_source_location_test_display() {
    let location = CodeSourceLocation::new("mod.rs".to_string(), 3, 8);
    let display_str = location.to_display_string();
    assert_eq!(display_str, "(file: mod.rs,line: 3, column: 8)");

    let compact_display_str = location.to_compact_string();
    assert_eq!(compact_display_str, "(fn: mod.rs, ln: 3, cln: 8)");
}

#[test]
fn token_compact_and_display_forms() {
    let token = Token::new(
        TokenType::Identifier,
        "x".to_string(),
        CodeSourceLocation::new("a.vd".to_string(), 12, 0),
    );
    assert_eq!(token.to_compact_string(), "(typ: IDENT, val: 'x', sl: (fn: a.vd, ln: 12, cln: 0))");
    assert_eq!(
        token.to_display_string(),
        "Token(type: Identifier, value: 'x', sourceLocation: (file: a.vd,line: 12, column: 0))"
    );
    let end = Token::new_with_empty_value(
        TokenType::Eoft,
        CodeSourceLocation::new("a.vd".to_string(), 3, 107),
    );
    assert_eq!(end.to_compact_string(), "(typ: EOF, sl: (fn: a.vd, ln: 3, cln: 107))");
    assert_eq!(
        end.to_display_string(),
        "Token(type: Eoft, sourceLocation: (file: a.vd,line: 3, column: 107))"
    );
}

#[test]
fn value_size_counts_bytes() {
    let token = Token::new(
        TokenType::Identifier,
        "变量x".to_string(),
        CodeSourceLocation::new("u.vd".to_string(), 1, 0),
    );
    assert_eq!(token.value_size(), 7);
}

#[test]
fn decimal_rendering() {
    assert_eq!(to_decimal(0), "0");
    assert_eq!(to_decimal(7), "7");
    assert_eq!(to_decimal(10), "10");
    assert_eq!(to_decimal(90210), "90210");
    assert_eq!(to_decimal(usize::MAX), usize::MAX.to_string());
}
