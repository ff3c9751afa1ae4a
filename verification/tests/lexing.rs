use vash::token::{lex, LexerError, Token};

#[test]
fn lex_words_and_operator() {
    let toks = lex("a && b");
    assert_eq!(
        toks,
        vec![
            Ok(Token::Identifier(String::from("a"))),
            Ok(Token::And),
            Ok(Token::Identifier(String::from("b"))),
        ]
    );
}

#[test]
fn lex_double_quoted_string_decodes() {
    let toks = lex("echo \"a\\\"b\"");
    assert_eq!(
        toks,
        vec![
            Ok(Token::Identifier(String::from("echo"))),
            Ok(Token::DoubleQuotedString(String::from("a\"b"))),
        ]
    );
}

#[test]
fn lex_unterminated_string_is_error() {
    let toks = lex("\"abc");
    assert_eq!(toks, vec![Err(LexerError::UnterminatedString)]);
}

#[test]
fn lex_comment_alone() {
    let toks = lex("# comment");
    assert_eq!(toks, vec![Ok(Token::Comment(String::from("# comment")))]);
}

#[test]
fn lex_comment_stops_at_newline() {
    let toks = lex("# note\nls");
    assert_eq!(
        toks,
        vec![
            Ok(Token::Comment(String::from("# note"))),
            Ok(Token::Identifier(String::from("ls"))),
        ]
    );
}

#[test]
fn lex_operators_longest_first() {
    let toks = lex(">> > << < || | ; && 2> 2>>");
    assert_eq!(
        toks,
        vec![
            Ok(Token::Append),
            Ok(Token::Write),
            Ok(Token::HereDoc),
            Ok(Token::Read),
            Ok(Token::Or),
            Ok(Token::Pipe),
            Ok(Token::Semi),
            Ok(Token::And),
            Ok(Token::ErrWrite),
            Ok(Token::ErrAppend),
        ]
    );
}

#[test]
fn lex_lone_ampersand_is_unknown() {
    let toks = lex("a & b");
    assert_eq!(
        toks,
        vec![
            Ok(Token::Identifier(String::from("a"))),
            Err(LexerError::UnknownToken),
            Ok(Token::Identifier(String::from("b"))),
        ]
    );
}

#[test]
fn lex_collects_every_error() {
    let toks = lex("% ls %");
    assert_eq!(
        toks,
        vec![
            Err(LexerError::UnknownToken),
            Ok(Token::Identifier(String::from("ls"))),
            Err(LexerError::UnknownToken),
        ]
    );
}

#[test]
fn lex_reserved_words() {
    let toks = lex("if then else fi while do done for in function case esac break continue");
    assert_eq!(
        toks,
        vec![
            Ok(Token::If),
            Ok(Token::Then),
            Ok(Token::Else),
            Ok(Token::Fi),
            Ok(Token::While),
            Ok(Token::Do),
            Ok(Token::Done),
            Ok(Token::For),
            Ok(Token::In),
            Ok(Token::Function),
            Ok(Token::Case),
            Ok(Token::Esac),
            Ok(Token::Break),
            Ok(Token::Continue),
        ]
    );
}

#[test]
fn lex_keyword_prefix_is_identifier() {
    let toks = lex("iffy form");
    assert_eq!(
        toks,
        vec![
            Ok(Token::Identifier(String::from("iffy"))),
            Ok(Token::Identifier(String::from("form"))),
        ]
    );
}

#[test]
fn lex_digit_run_is_identifier() {
    let toks = lex("echo 123");
    assert_eq!(
        toks,
        vec![
            Ok(Token::Identifier(String::from("echo"))),
            Ok(Token::Identifier(String::from("123"))),
        ]
    );
}

#[test]
fn lex_word_characters() {
    let toks = lex("./a-b_c/d.e");
    assert_eq!(toks, vec![Ok(Token::Identifier(String::from("./a-b_c/d.e")))]);
}

#[test]
fn lex_single_quoted_string() {
    let toks = lex("'a b'");
    assert_eq!(toks, vec![Ok(Token::SingleQuotedString(String::from("a b")))]);
}

#[test]
fn lex_bad_escape_is_unescape_error() {
    let toks = lex("\"\\q\"");
    assert_eq!(toks.len(), 1);
    assert!(matches!(toks[0], Err(LexerError::Unescape(_))));
}

#[test]
fn lex_empty_input() {
    assert_eq!(lex(""), vec![]);
    assert_eq!(lex("   \t\n"), vec![]);
}
