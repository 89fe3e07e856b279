use rsvandior::{check_scan, tokenize_w, RawToken, ScannedToken, Token, TokenType, Tokenizer};

fn span(kind: RawToken, start: usize, end: usize) -> ScannedToken {
    ScannedToken { kind, start, end }
}

fn check(t: &Token, ty: TokenType, value: &str, line: usize, column: usize) {
    assert_eq!(t.token_type, ty);
    assert_eq!(t.value, value);
    assert_eq!(t.source_location.line, line);
    assert_eq!(t.source_location.column, column);
}

#[test]
fn end_to_end_assignment_with_comment() {
    let input = "var x = 1 + 2.5 // sum";
    let scanned = vec![
        span(RawToken::IdentifierAscii, 0, 3),
        span(RawToken::IdentifierAscii, 4, 5),
        span(RawToken::Equal, 6, 7),
        span(RawToken::Number, 8, 9),
        span(RawToken::Plus, 10, 11),
        span(RawToken::Number, 12, 15),
        span(RawToken::SingleLineComment, 16, 22),
    ];
    assert!(check_scan(input, &scanned));
    let mut tokenizer = Tokenizer::new("main.vd", input);
    let tokens = tokenizer.tokenize(&scanned);
    assert_eq!(tokens.len(), 8);
    check(&tokens[0], TokenType::KVar, "var", 1, 0);
    check(&tokens[1], TokenType::Identifier, "x", 1, 4);
    check(&tokens[2], TokenType::Equal, "=", 1, 6);
    check(&tokens[3], TokenType::Integer, "1", 1, 8);
    check(&tokens[4], TokenType::Plus, "+", 1, 10);
    check(&tokens[5], TokenType::Double, "2.5", 1, 12);
    check(&tokens[6], TokenType::Comment, "// sum", 1, 16);
    check(&tokens[7], TokenType::Eoft, "", 1, 22);
    for t in &tokens {
        assert_eq!(t.source_location.file_name, "main.vd");
    }
}

#[test]
fn whitespace_only_gives_end_token_alone() {
    let input = "  \n\t  ";
    let scanned: Vec<ScannedToken> = Vec::new();
    let tokens = tokenize_w("ws.vd", input, &scanned);
    assert_eq!(tokens.len(), 1);
    let end = tokens.get(0).unwrap();
    check(end, TokenType::Eoft, "", 0, 0);
}

#[test]
fn lines_and_columns_across_newlines() {
    let input = "a\n  bc";
    let scanned = vec![span(RawToken::IdentifierAscii, 0, 1), span(RawToken::IdentifierAscii, 4, 6)];
    let mut tokenizer = Tokenizer::new("f.vd", input);
    let tokens = tokenizer.tokenize(&scanned);
    check(&tokens[0], TokenType::Identifier, "a", 1, 0);
    check(&tokens[1], TokenType::Identifier, "bc", 2, 2);
    check(&tokens[2], TokenType::Eoft, "", 2, 4);
}

#[test]
fn columns_count_characters_not_bytes() {
    let input = "é = 变量";
    let scanned = vec![
        span(RawToken::IdentifierUnicode, 0, 1),
        span(RawToken::Equal, 2, 3),
        span(RawToken::IdentifierUnicode, 4, 6),
    ];
    let tokens = tokenize_w("u.vd", input, &scanned);
    check(tokens.get(0).unwrap(), TokenType::Identifier, "é", 1, 0);
    check(tokens.get(1).unwrap(), TokenType::Equal, "=", 1, 2);
    check(tokens.get(2).unwrap(), TokenType::Identifier, "变量", 1, 4);
    check(tokens.get(3).unwrap(), TokenType::Eoft, "", 1, 6);
}

#[test]
fn quoted_literals_lose_one_quote_each_side() {
    let input = "\"hello\" 'c' \"\"\"\"";
    let scanned = vec![
        span(RawToken::STRING, 0, 7),
        span(RawToken::CHAR, 8, 11),
        span(RawToken::STRING, 12, 16),
    ];
    let tokens = tokenize_w("q.vd", input, &scanned);
    check(tokens.get(0).unwrap(), TokenType::String, "hello", 1, 0);
    check(tokens.get(1).unwrap(), TokenType::Char, "c", 1, 8);
    check(tokens.get(2).unwrap(), TokenType::String, "\"\"", 1, 12);
}

#[test]
fn numbers_follow_the_dot_rule() {
    let input = "123 123.45 1e10 #ff";
    let scanned = vec![
        span(RawToken::Number, 0, 3),
        span(RawToken::Number, 4, 10),
        span(RawToken::Number, 11, 15),
        span(RawToken::Hexadecimal, 16, 19),
    ];
    let tokens = tokenize_w("n.vd", input, &scanned);
    check(tokens.get(0).unwrap(), TokenType::Integer, "123", 1, 0);
    check(tokens.get(1).unwrap(), TokenType::Double, "123.45", 1, 4);
    check(tokens.get(2).unwrap(), TokenType::Integer, "1e10", 1, 11);
    check(tokens.get(3).unwrap(), TokenType::Integer, "#ff", 1, 16);
}

#[test]
fn each_keyword_alone_gives_one_keyword_token() {
    let table = [
        ("main", TokenType::KMain),
        ("var", TokenType::KVar),
        ("if", TokenType::KIf),
        ("while", TokenType::KWhile),
        ("else", TokenType::KElse),
        ("for", TokenType::KFor),
        ("break", TokenType::KBreak),
        ("fun", TokenType::KFun),
        ("return", TokenType::KReturn),
        ("mainly", TokenType::Identifier),
        ("If", TokenType::Identifier),
    ];
    for (word, ty) in table.iter() {
        let scanned = vec![span(RawToken::IdentifierAscii, 0, word.chars().count())];
        let tokens = tokenize_w("k.vd", word, &scanned);
        assert_eq!(tokens.len(), 2);
        check(tokens.get(0).unwrap(), *ty, word, 1, 0);
        assert_eq!(tokens.get(1).unwrap().token_type, TokenType::Eoft);
    }
}

#[test]
fn end_token_is_last_and_only() {
    let input = "( ) { }";
    let scanned = vec![
        span(RawToken::OpenParentesis, 0, 1),
        span(RawToken::CloseParentesis, 2, 3),
        span(RawToken::OpenCurParentesis, 4, 5),
        span(RawToken::CloseCurParentesis, 6, 7),
    ];
    let tokens = tokenize_w("p.vd", input, &scanned);
    assert_eq!(tokens.len(), 5);
    assert_eq!(tokens.capacity(), 5);
    for i in 0..4 {
        assert_ne!(tokens.get(i).unwrap().token_type, TokenType::Eoft);
    }
    check(tokens.get(4).unwrap(), TokenType::Eoft, "", 1, 7);
}

#[test]
fn check_scan_refuses_bad_spans() {
    let input = "ab \"";
    assert!(check_scan(input, &vec![span(RawToken::IdentifierAscii, 0, 2)]));
    assert!(!check_scan(input, &vec![span(RawToken::IdentifierAscii, 0, 9)]));
    assert!(!check_scan(input, &vec![span(RawToken::IdentifierAscii, 2, 1)]));
    assert!(!check_scan(
        input,
        &vec![span(RawToken::IdentifierAscii, 0, 2), span(RawToken::IdentifierAscii, 1, 2)]
    ));
    assert!(!check_scan(input, &vec![span(RawToken::STRING, 3, 4)]));
    assert!(check_scan(input, &Vec::new()));
}
