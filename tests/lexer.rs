use splasm::lexeme::{Lexeme, LexemeKind};
use splasm::lexer::Lexer;

fn all(input: &str) -> Vec<Lexeme<'_>> {
    let mut lexer = Lexer::new(input);
    let mut out = Vec::new();
    while let Some(l) = lexer.next_lexeme() {
        out.push(l);
    }
    out
}

#[test]
fn lexes_an_expression() {
    let ls = all("(ab_1+c)*[x]");
    let kinds: Vec<LexemeKind> = ls.iter().map(|l| l.kind).collect();
    assert_eq!(
        kinds,
        vec![
            LexemeKind::LeftParen,
            LexemeKind::Identifier,
            LexemeKind::Plus,
            LexemeKind::Identifier,
            LexemeKind::RightParen,
            LexemeKind::Asterisk,
            LexemeKind::LeftSquare,
            LexemeKind::Identifier,
            LexemeKind::RightSquare,
            LexemeKind::Eof,
        ]
    );
    assert_eq!(ls[1].code_span, "ab_1");
    assert_eq!(ls[1].location, (0, 1));
    assert_eq!(ls[9].code_span, "");
}

#[test]
fn comments_lines_and_columns() {
    let ls = all("a // note\n{ }/b");
    assert_eq!(ls[2].kind, LexemeKind::Comment);
    assert_eq!(ls[2].code_span, "// note");
    assert_eq!(ls[3].kind, LexemeKind::Whitespace);
    assert_eq!(ls[3].code_span, "\n");
    assert_eq!(ls[4].kind, LexemeKind::LeftBrace);
    assert_eq!(ls[4].location, (1, 0));
    assert_eq!(ls[6].kind, LexemeKind::RightBrace);
    assert_eq!(ls[7].kind, LexemeKind::Slash);
    assert_eq!(ls[8].location, (1, 4));
    assert_eq!(ls.last().unwrap().kind, LexemeKind::Eof);
}

#[test]
fn unicode_identifiers_and_whitespace() {
    let ls = all("é1x\u{3000}-?");
    assert_eq!(ls[0].kind, LexemeKind::Identifier);
    assert_eq!(ls[0].code_span, "é1x");
    assert_eq!(ls[1].kind, LexemeKind::Whitespace);
    assert_eq!(ls[2].kind, LexemeKind::Minus);
    assert_eq!(ls[3].kind, LexemeKind::Unknown);
    assert_eq!(ls[4].kind, LexemeKind::Eof);
    assert_eq!(ls.len(), 5);
}

#[test]
fn trailing_slash_stops_without_eof() {
    let mut lexer = Lexer::new("a/");
    assert_eq!(lexer.next_lexeme().unwrap().kind, LexemeKind::Identifier);
    assert!(lexer.next_lexeme().is_none());
    assert!(lexer.next_lexeme().is_none());
}

#[test]
fn eof_comes_once() {
    let mut lexer = Lexer::new("");
    let eof = lexer.next_lexeme().unwrap();
    assert_eq!(eof.kind, LexemeKind::Eof);
    assert_eq!(eof.location, (0, 0));
    assert!(lexer.next_lexeme().is_none());
}
