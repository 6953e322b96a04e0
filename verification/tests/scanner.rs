use minilex::lexer::{Lexer, Token, TokenKind};
use minilex::span::TextSpan;

/// Scan the whole source, returning every token up to and including Eof.
fn scan_all(source: &str) -> Vec<Token> {
    let mut lexer = Lexer::new(source);
    let mut tokens: Vec<Token> = Vec::new();
    loop {
        let token = lexer.next_token().unwrap();
        let done = token.kind == TokenKind::Eof;
        tokens.push(token);
        if done {
            break;
        }
    }
    tokens
}

fn kinds_of(tokens: &[Token]) -> Vec<TokenKind> {
    tokens.iter().map(|t| t.kind.clone()).collect()
}

#[test]
fn eof_is_idempotent_on_empty_input() {
    let mut lexer = Lexer::new("");
    for _ in 0..3 {
        let token = lexer.next_token().unwrap();
        assert_eq!(token.kind, TokenKind::Eof);
        assert_eq!(token.span.start, 0);
        assert_eq!(token.span.end, 0);
        assert_eq!(token.span.literal, "\0");
    }
}

#[test]
fn eof_is_idempotent_after_scanning() {
    let mut lexer = Lexer::new("ab");
    let first = lexer.next_token().unwrap();
    assert_eq!(first.kind, TokenKind::Identifier);
    for _ in 0..3 {
        let token = lexer.next_token().unwrap();
        assert_eq!(token.kind, TokenKind::Eof);
        assert_eq!(token.span.start, 2);
        assert_eq!(token.span.end, 2);
        assert_eq!(token.span.literal, "\0");
    }
}

#[test]
fn two_spaces_scan_as_two_whitespace_tokens() {
    let tokens = scan_all("  ");
    assert_eq!(
        kinds_of(&tokens),
        vec![TokenKind::Whitespace, TokenKind::Whitespace, TokenKind::Eof]
    );
    assert_eq!(tokens[0].span.start, 0);
    assert_eq!(tokens[0].span.end, 1);
    assert_eq!(tokens[1].span.start, 1);
    assert_eq!(tokens[1].span.end, 2);
}

#[test]
fn other_whitespace_characters_each_scan_alone() {
    let tokens = scan_all("\t\n\r");
    assert_eq!(
        kinds_of(&tokens),
        vec![
            TokenKind::Whitespace,
            TokenKind::Whitespace,
            TokenKind::Whitespace,
            TokenKind::Eof
        ]
    );
}

#[test]
fn leading_zeros_fold_decimally() {
    let tokens = scan_all("087");
    assert_eq!(tokens[0].kind, TokenKind::Number(87));
    assert_eq!(tokens[0].span.start, 0);
    assert_eq!(tokens[0].span.end, 3);
    assert_eq!(tokens[0].span.literal, "087");
    assert_eq!(tokens[1].kind, TokenKind::Eof);
}

#[test]
fn number_folding_wraps_on_overflow() {
    // one past i64::MAX: the fold wraps per 64-bit two's complement
    let tokens = scan_all("9223372036854775808");
    assert_eq!(tokens[0].kind, TokenKind::Number(i64::MIN));
    assert_eq!(tokens[1].kind, TokenKind::Eof);
}

#[test]
fn end_to_end_let_statement() {
    let tokens = scan_all("let x = 87; return x;");
    assert_eq!(
        kinds_of(&tokens),
        vec![
            TokenKind::Let,
            TokenKind::Whitespace,
            TokenKind::Identifier,
            TokenKind::Whitespace,
            TokenKind::Equals,
            TokenKind::Whitespace,
            TokenKind::Number(87),
            TokenKind::SemiColon,
            TokenKind::Whitespace,
            TokenKind::Return,
            TokenKind::Whitespace,
            TokenKind::Identifier,
            TokenKind::SemiColon,
            TokenKind::Eof
        ]
    );
    assert_eq!(tokens[2].span.literal, "x");
    assert_eq!(tokens[11].span.literal, "x");
}

#[test]
fn end_to_end_arrow_chain() {
    let tokens = scan_all("a->b>=c");
    assert_eq!(
        kinds_of(&tokens),
        vec![
            TokenKind::Identifier,
            TokenKind::Arrow,
            TokenKind::Identifier,
            TokenKind::GreaterThanEquals,
            TokenKind::Identifier,
            TokenKind::Eof
        ]
    );
}

#[test]
fn lone_bang_scans_as_bad() {
    let tokens = scan_all("!x");
    assert_eq!(
        kinds_of(&tokens),
        vec![TokenKind::Bad, TokenKind::Identifier, TokenKind::Eof]
    );
    assert_eq!(tokens[0].span.start, 0);
    assert_eq!(tokens[0].span.end, 1);
    assert_eq!(tokens[0].span.literal, "!");
}

#[test]
fn two_char_operators_scan_as_one_token() {
    let cases = [
        ("->", TokenKind::Arrow),
        ("**", TokenKind::DoubleAsterisk),
        ("==", TokenKind::EqualsEquals),
        (">=", TokenKind::GreaterThanEquals),
        ("<=", TokenKind::LessThanEquals),
        ("!=", TokenKind::BangEquals),
    ];
    for (source, expected) in cases {
        let tokens = scan_all(source);
        assert_eq!(tokens.len(), 2, "source {:?}", source);
        assert_eq!(tokens[0].kind, expected, "source {:?}", source);
        assert_eq!(tokens[0].span.start, 0);
        assert_eq!(tokens[0].span.end, 2);
        assert_eq!(tokens[0].span.literal, source);
    }
}

#[test]
fn unpaired_operator_heads_scan_alone() {
    let cases = [
        ("-", TokenKind::Minus),
        ("*", TokenKind::Asterisk),
        ("=", TokenKind::Equals),
        (">", TokenKind::GreaterThan),
        ("<", TokenKind::LessThan),
        ("!", TokenKind::Bad),
    ];
    for (source, expected) in cases {
        let tokens = scan_all(source);
        assert_eq!(tokens.len(), 2, "source {:?}", source);
        assert_eq!(tokens[0].kind, expected, "source {:?}", source);
        assert_eq!(tokens[0].span.end, 1);
    }
}

#[test]
fn unpaired_heads_before_another_character_scan_alone() {
    let tokens = scan_all("-x");
    assert_eq!(
        kinds_of(&tokens),
        vec![TokenKind::Minus, TokenKind::Identifier, TokenKind::Eof]
    );
    let tokens = scan_all("=5");
    assert_eq!(
        kinds_of(&tokens),
        vec![TokenKind::Equals, TokenKind::Number(5), TokenKind::Eof]
    );
}

#[test]
fn single_char_punctuation_maps_directly() {
    let tokens = scan_all("+(){},:;%/&|^~");
    assert_eq!(
        kinds_of(&tokens),
        vec![
            TokenKind::Plus,
            TokenKind::LeftParen,
            TokenKind::RightParen,
            TokenKind::OpenBrace,
            TokenKind::CloseBrace,
            TokenKind::Comma,
            TokenKind::Colon,
            TokenKind::SemiColon,
            TokenKind::Percent,
            TokenKind::Slash,
            TokenKind::Ampersand,
            TokenKind::Pipe,
            TokenKind::Caret,
            TokenKind::Tilde,
            TokenKind::Eof
        ]
    );
}

#[test]
fn unclassified_characters_scan_as_bad() {
    for source in ["@", "#", "?", "$"] {
        let tokens = scan_all(source);
        assert_eq!(tokens[0].kind, TokenKind::Bad, "source {:?}", source);
        assert_eq!(tokens[0].span.end, 1);
    }
}

#[test]
fn keywords_are_recognized() {
    let tokens = scan_all("let if else true false while func return");
    let kinds: Vec<TokenKind> = kinds_of(&tokens)
        .into_iter()
        .filter(|k| *k != TokenKind::Whitespace)
        .collect();
    assert_eq!(
        kinds,
        vec![
            TokenKind::Let,
            TokenKind::If,
            TokenKind::Else,
            TokenKind::True,
            TokenKind::False,
            TokenKind::While,
            TokenKind::Func,
            TokenKind::Return,
            TokenKind::Eof
        ]
    );
}

#[test]
fn words_that_extend_a_keyword_are_identifiers() {
    for source in ["lets", "iff", "returning", "Let", "truex", "whil"] {
        let tokens = scan_all(source);
        assert_eq!(tokens[0].kind, TokenKind::Identifier, "source {:?}", source);
        assert_eq!(tokens[0].span.literal, source);
    }
}

#[test]
fn identifier_stops_at_digit() {
    let tokens = scan_all("x1");
    assert_eq!(
        kinds_of(&tokens),
        vec![TokenKind::Identifier, TokenKind::Number(1), TokenKind::Eof]
    );
    assert_eq!(tokens[0].span.literal, "x");
    assert_eq!(tokens[1].span.literal, "1");
}

#[test]
fn underscores_start_and_continue_identifiers() {
    let tokens = scan_all("_foo_bar");
    assert_eq!(
        kinds_of(&tokens),
        vec![TokenKind::Identifier, TokenKind::Eof]
    );
    assert_eq!(tokens[0].span.literal, "_foo_bar");
}

#[test]
fn non_ascii_whitespace_scans_as_whitespace() {
    // no-break space and ideographic space are Unicode whitespace
    let tokens = scan_all("\u{00A0}\u{3000}");
    assert_eq!(
        kinds_of(&tokens),
        vec![TokenKind::Whitespace, TokenKind::Whitespace, TokenKind::Eof]
    );
    assert_eq!(tokens[0].span.start, 0);
    assert_eq!(tokens[0].span.end, 1);
    assert_eq!(tokens[1].span.start, 1);
    assert_eq!(tokens[1].span.end, 2);
}

#[test]
fn non_ascii_letters_scan_as_identifier() {
    let tokens = scan_all("αβ");
    assert_eq!(
        kinds_of(&tokens),
        vec![TokenKind::Identifier, TokenKind::Eof]
    );
    assert_eq!(tokens[0].span.start, 0);
    assert_eq!(tokens[0].span.end, 2);
    assert_eq!(tokens[0].span.literal, "αβ");
}

#[test]
fn spans_are_exact_and_contiguous() {
    let source = "let x = 87; return x->y ** 2;";
    let tokens = scan_all(source);
    let chars: Vec<char> = source.chars().collect();
    let mut cursor = 0usize;
    for token in &tokens {
        assert_eq!(token.span.start, cursor, "token {:?}", token);
        if token.kind == TokenKind::Eof {
            assert_eq!(token.span.end, cursor);
            assert_eq!(token.span.literal, "\0");
        } else {
            assert!(token.span.end > token.span.start, "token {:?}", token);
            let slice: String = chars[token.span.start..token.span.end].iter().collect();
            assert_eq!(token.span.literal, slice);
            assert_eq!(
                token.span.end - token.span.start,
                token.span.literal.chars().count()
            );
        }
        cursor = token.span.end;
    }
    assert_eq!(cursor, chars.len());
}

#[test]
fn display_text_is_the_canonical_rendering() {
    let cases = [
        (TokenKind::Number(5), "Number"),
        (TokenKind::Plus, "+"),
        (TokenKind::Arrow, "->"),
        (TokenKind::DoubleAsterisk, "**"),
        (TokenKind::BangEquals, "!="),
        (TokenKind::OpenBrace, "{"),
        (TokenKind::Let, "let"),
        (TokenKind::Return, "return"),
        (TokenKind::Identifier, "Identifier"),
        (TokenKind::Whitespace, "Whitespace"),
        (TokenKind::Bad, "Bad"),
        (TokenKind::Eof, "EOF"),
    ];
    for (kind, expected) in cases {
        assert_eq!(kind.display_text(), expected);
    }
}

#[test]
fn text_span_new_and_length() {
    let span = TextSpan::new(3, 7, "abcd".to_string());
    assert_eq!(span.start, 3);
    assert_eq!(span.end, 7);
    assert_eq!(span.literal, "abcd");
    assert_eq!(span.length(), 4);
}

#[test]
fn token_new_keeps_its_parts() {
    let span = TextSpan::new(0, 1, "+".to_string());
    let token = Token::new(TokenKind::Plus, span.clone());
    assert_eq!(token.kind, TokenKind::Plus);
    assert_eq!(token.span, span);
}

#[test]
fn text_eq_compares_characters() {
    assert!(minilex::lexer::text_eq("abc", "abc"));
    assert!(!minilex::lexer::text_eq("abc", "abd"));
    assert!(!minilex::lexer::text_eq("a", "ab"));
    assert!(minilex::lexer::text_eq("", ""));
}
