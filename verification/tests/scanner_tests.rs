use weaver::scanner::Scanner;
use weaver::token::TokenType;

#[test]
fn scan_string() {
    let mut scanner = Scanner::new("\"hello world\"", true);
    let token = scanner.scan_token();
    assert_eq!(token.token_type, TokenType::String);
    assert_eq!(token.lexeme.lexeme(), &b"hello world".to_vec());
}

#[test]
fn scan_number() {
    let mut scanner = Scanner::new("123", true);
    let token = scanner.scan_token();
    assert_eq!(token.token_type, TokenType::Number);
    assert_eq!(token.lexeme.lexeme(), &b"123".to_vec());
}

#[test]
fn scan_identifier() {
    let mut scanner = Scanner::new("hello", true);
    let token = scanner.scan_token();
    assert_eq!(token.token_type, TokenType::Identifier);
    assert_eq!(token.lexeme.lexeme(), &b"hello".to_vec());
}

#[test]
fn lexeme_spans_tile_the_source() {
    // Concatenating the token spans in order gives back the source minus
    // whitespace and comments.
    let src = "x = 5 # set it\n  y = x + 2";
    let mut scanner = Scanner::new(src, false);
    let mut pieces: Vec<u8> = Vec::new();
    loop {
        let t = scanner.scan_token();
        if t.token_type == TokenType::EOF {
            break;
        }
        pieces.extend_from_slice(&src.as_bytes()[t.lexeme.start..t.lexeme.end]);
    }
    assert_eq!(pieces, b"x=5y=x+2".to_vec());
}

#[test]
fn line_numbers_do_not_decrease() {
    let src = "a = 1\nb = 2\n\n# comment\nc = a + b\n";
    let mut scanner = Scanner::new(src, false);
    let mut last_line = 0usize;
    loop {
        let t = scanner.scan_token();
        assert!(t.line >= last_line, "line went backwards");
        last_line = t.line;
        if t.token_type == TokenType::EOF {
            break;
        }
    }
    assert_eq!(last_line, 6);
}

#[test]
fn two_character_operators() {
    let mut scanner = Scanner::new("!= == <= >= && || |> *> &> ^", false);
    let expected = [
        TokenType::NEqual,
        TokenType::EqEqual,
        TokenType::LEqual,
        TokenType::GEqual,
        TokenType::AndAnd,
        TokenType::OrOr,
        TokenType::Pipe,
        TokenType::MapPipe,
        TokenType::Reduce,
        TokenType::Caret,
    ];
    for e in expected {
        let t = scanner.scan_token();
        assert_eq!(t.token_type, e);
    }
    assert_eq!(scanner.scan_token().token_type, TokenType::EOF);
}

#[test]
fn unterminated_string_is_an_error() {
    let mut scanner = Scanner::new("\"oops", false);
    let t = scanner.scan_token();
    assert_eq!(t.token_type, TokenType::ERROR);
}

#[test]
fn keywords_are_recognised() {
    let mut scanner = Scanner::new("if else while true false fn return puts other", false);
    let expected = [
        TokenType::If,
        TokenType::Else,
        TokenType::While,
        TokenType::True,
        TokenType::False,
        TokenType::FN,
        TokenType::Return,
        TokenType::Puts,
        TokenType::Identifier,
    ];
    for e in expected {
        let t = scanner.scan_token();
        assert_eq!(t.token_type, e);
    }
}
