//! The lexer: raw command text to an ordered token sequence.
//!
//! Whitespace separates tokens and is skipped. Operators match longest
//! first. A `#` starts a comment running to the end of the line. Quoted
//! strings are escape-decoded at lex time. Lexing continues past individual
//! errors, so every lexical error in a line is collected.
//!
//! Reserved words are kept for future control flow; today's parser refuses
//! them. A maximal run of word characters that is all digits lexes as an
//! identifier, so the integer-literal variant is likewise reserved.

use vstd::prelude::*;
use crate::strutil::{str_to_chars, chars_to_string};
use crate::unescape::{
    unescape, unescape_spec, SpecUnescapeError, UnescapeError,
};

verus! {

/// One lexed token, over mathematical values.
pub enum SpecToken {
    And,
    Or,
    Semi,
    Pipe,
    Append,
    Write,
    HereDoc,
    Read,
    ErrAppend,
    ErrWrite,
    If,
    Then,
    Else,
    Fi,
    While,
    Do,
    Done,
    For,
    In,
    Function,
    Case,
    Esac,
    Break,
    Continue,
    Identifier(Seq<char>),
    DoubleQuotedString(Seq<char>),
    SingleQuotedString(Seq<char>),
    Comment(Seq<char>),
    Number(int),
}

/// One lexed token. String payloads of quoted variants are already
/// escape-decoded; identifier and comment payloads are the raw text.
#[derive(Debug, Clone, PartialEq)]
pub enum Token {
    And,
    Or,
    Semi,
    Pipe,
    Append,
    Write,
    HereDoc,
    Read,
    ErrAppend,
    ErrWrite,
    If,
    Then,
    Else,
    Fi,
    While,
    Do,
    Done,
    For,
    In,
    Function,
    Case,
    Esac,
    Break,
    Continue,
    Identifier(String),
    DoubleQuotedString(String),
    SingleQuotedString(String),
    Comment(String),
    Number(i64),
}

impl View for Token {
    type V = SpecToken;

    open spec fn view(&self) -> SpecToken {
        match self {
            Token::And => SpecToken::And,
            Token::Or => SpecToken::Or,
            Token::Semi => SpecToken::Semi,
            Token::Pipe => SpecToken::Pipe,
            Token::Append => SpecToken::Append,
            Token::Write => SpecToken::Write,
            Token::HereDoc => SpecToken::HereDoc,
            Token::Read => SpecToken::Read,
            Token::ErrAppend => SpecToken::ErrAppend,
            Token::ErrWrite => SpecToken::ErrWrite,
            Token::If => SpecToken::If,
            Token::Then => SpecToken::Then,
            Token::Else => SpecToken::Else,
            Token::Fi => SpecToken::Fi,
            Token::While => SpecToken::While,
            Token::Do => SpecToken::Do,
            Token::Done => SpecToken::Done,
            Token::For => SpecToken::For,
            Token::In => SpecToken::In,
            Token::Function => SpecToken::Function,
            Token::Case => SpecToken::Case,
            Token::Esac => SpecToken::Esac,
            Token::Break => SpecToken::Break,
            Token::Continue => SpecToken::Continue,
            Token::Identifier(s) => SpecToken::Identifier(s@),
            Token::DoubleQuotedString(s) => SpecToken::DoubleQuotedString(s@),
            Token::SingleQuotedString(s) => SpecToken::SingleQuotedString(s@),
            Token::Comment(s) => SpecToken::Comment(s@),
            Token::Number(n) => SpecToken::Number(*n as int),
        }
    }
}

impl DeepView for Token {
    type V = SpecToken;

    open spec fn deep_view(&self) -> SpecToken {
        self.view()
    }
}

/// A lexical failure, over mathematical values.
pub enum SpecLexerError {
    UnknownToken,
    UnterminatedString,
    Unescape(SpecUnescapeError),
}

/// A lexical failure.
#[derive(Debug, PartialEq, Default)]
pub enum LexerError {
    /// No token matches at this position.
    #[default]
    UnknownToken,
    /// A quoted string with no closing quote.
    UnterminatedString,
    /// A quoted string whose escapes do not decode.
    Unescape(UnescapeError),
}

impl View for LexerError {
    type V = SpecLexerError;

    open spec fn view(&self) -> SpecLexerError {
        match self {
            LexerError::UnknownToken => SpecLexerError::UnknownToken,
            LexerError::UnterminatedString => SpecLexerError::UnterminatedString,
            LexerError::Unescape(e) => SpecLexerError::Unescape(e@),
        }
    }
}

impl DeepView for LexerError {
    type V = SpecLexerError;

    open spec fn deep_view(&self) -> SpecLexerError {
        self.view()
    }
}

impl Clone for LexerError {
    /// The clone is the same error.
    fn clone(&self) -> (r: Self)
        ensures
            r@ == self@,
    {
        match self {
            LexerError::UnknownToken => LexerError::UnknownToken,
            LexerError::UnterminatedString => LexerError::UnterminatedString,
            LexerError::Unescape(e) => LexerError::Unescape(e.clone()),
        }
    }
}

// ---------------------------------------------------------------------------
// Character classes
// ---------------------------------------------------------------------------

/// Whitespace between tokens: space, tab, newline, form feed.
pub open spec fn is_ws_char(c: char) -> bool {
    c == ' ' || c == '\t' || c == '\n' || c == '\u{0C}'
}

/// A character that may stand in a bare word: letters, digits, `_-./`.
pub open spec fn is_word_char(c: char) -> bool {
    (97 <= c as u32 && c as u32 <= 122)  // 'a'..='z'
    || (65 <= c as u32 && c as u32 <= 90)  // 'A'..='Z'
    || (48 <= c as u32 && c as u32 <= 57)  // '0'..='9'
    || c == '_' || c == '-' || c == '.' || c == '/'
}

// ---------------------------------------------------------------------------
// Scanning positions
// ---------------------------------------------------------------------------

/// First non-whitespace position at or after `i`.
pub open spec fn skip_ws(s: Seq<char>, i: int) -> int
    decreases s.len() - i,
{
    if i < 0 || i >= s.len() {
        s.len() as int
    } else if is_ws_char(s[i]) {
        skip_ws(s, i + 1)
    } else {
        i
    }
}

proof fn lemma_skip_ws_bounds(s: Seq<char>, i: int)
    requires
        0 <= i <= s.len(),
    ensures
        i <= skip_ws(s, i) <= s.len(),
    decreases s.len() - i,
{
    if i < s.len() && is_ws_char(s[i]) {
        lemma_skip_ws_bounds(s, i + 1);
    }
}

/// End of the maximal word-character run beginning at `i`.
pub open spec fn word_end(s: Seq<char>, i: int) -> int
    decreases s.len() - i,
{
    if i < 0 || i >= s.len() {
        s.len() as int
    } else if is_word_char(s[i]) {
        word_end(s, i + 1)
    } else {
        i
    }
}

proof fn lemma_word_end_bounds(s: Seq<char>, i: int)
    requires
        0 <= i <= s.len(),
    ensures
        i <= word_end(s, i) <= s.len(),
    decreases s.len() - i,
{
    if i < s.len() && is_word_char(s[i]) {
        lemma_word_end_bounds(s, i + 1);
    }
}

/// First newline at or after `i`, or the length of `s`.
pub open spec fn line_end(s: Seq<char>, i: int) -> int
    decreases s.len() - i,
{
    if i < 0 || i >= s.len() {
        s.len() as int
    } else if s[i] == '\n' {
        i
    } else {
        line_end(s, i + 1)
    }
}

proof fn lemma_line_end_bounds(s: Seq<char>, i: int)
    requires
        0 <= i <= s.len(),
    ensures
        i <= line_end(s, i) <= s.len(),
    decreases s.len() - i,
{
    if i < s.len() && s[i] != '\n' {
        lemma_line_end_bounds(s, i + 1);
    }
}

/// Position of the closing double quote of a segment whose body starts at
/// `i`, skipping backslash escapes, or `None` if the string never closes.
pub open spec fn dq_end(s: Seq<char>, i: int) -> Option<int>
    decreases s.len() - i,
{
    if i < 0 || i >= s.len() {
        None
    } else if s[i] == '"' {
        Some(i)
    } else if s[i] == '\\' {
        if i + 1 < s.len() {
            dq_end(s, i + 2)
        } else {
            None
        }
    } else {
        dq_end(s, i + 1)
    }
}

proof fn lemma_dq_end_bounds(s: Seq<char>, i: int)
    requires
        0 <= i <= s.len(),
    ensures
        dq_end(s, i) matches Some(e) ==> i <= e < s.len(),
    decreases s.len() - i,
{
    if i < s.len() && s[i] != '"' {
        if s[i] == '\\' {
            if i + 1 < s.len() {
                lemma_dq_end_bounds(s, i + 2);
            }
        } else {
            lemma_dq_end_bounds(s, i + 1);
        }
    }
}

/// Position of the closing single quote at or after `i`, or `None`.
pub open spec fn sq_end(s: Seq<char>, i: int) -> Option<int>
    decreases s.len() - i,
{
    if i < 0 || i >= s.len() {
        None
    } else if s[i] == '\'' {
        Some(i)
    } else {
        sq_end(s, i + 1)
    }
}

proof fn lemma_sq_end_bounds(s: Seq<char>, i: int)
    requires
        0 <= i <= s.len(),
    ensures
        sq_end(s, i) matches Some(e) ==> i <= e < s.len(),
    decreases s.len() - i,
{
    if i < s.len() && s[i] != '\'' {
        lemma_sq_end_bounds(s, i + 1);
    }
}

// ---------------------------------------------------------------------------
// Reserved words
// ---------------------------------------------------------------------------

/// The reserved-word token for a word run, if the run is one.
pub open spec fn spec_keyword(w: Seq<char>) -> Option<SpecToken> {
    if w == seq!['i', 'f'] {
        Some(SpecToken::If)
    } else if w == seq!['i', 'n'] {
        Some(SpecToken::In)
    } else if w == seq!['d', 'o'] {
        Some(SpecToken::Do)
    } else if w == seq!['f', 'i'] {
        Some(SpecToken::Fi)
    } else if w == seq!['f', 'o', 'r'] {
        Some(SpecToken::For)
    } else if w == seq!['t', 'h', 'e', 'n'] {
        Some(SpecToken::Then)
    } else if w == seq!['e', 'l', 's', 'e'] {
        Some(SpecToken::Else)
    } else if w == seq!['e', 's', 'a', 'c'] {
        Some(SpecToken::Esac)
    } else if w == seq!['d', 'o', 'n', 'e'] {
        Some(SpecToken::Done)
    } else if w == seq!['c', 'a', 's', 'e'] {
        Some(SpecToken::Case)
    } else if w == seq!['w', 'h', 'i', 'l', 'e'] {
        Some(SpecToken::While)
    } else if w == seq!['b', 'r', 'e', 'a', 'k'] {
        Some(SpecToken::Break)
    } else if w == seq!['f', 'u', 'n', 'c', 't', 'i', 'o', 'n'] {
        Some(SpecToken::Function)
    } else if w == seq!['c', 'o', 'n', 't', 'i', 'n', 'u', 'e'] {
        Some(SpecToken::Continue)
    } else {
        None
    }
}

/// Decides whether a character may stand in a bare word.
fn word_char(c: char) -> (r: bool)
    ensures
        r == is_word_char(c),
{
    let u = c as u32;
    (97 <= u && u <= 122) || (65 <= u && u <= 90) || (48 <= u && u <= 57) || c == '_' || c == '-'
        || c == '.' || c == '/'
}

/// Decides whether the word run `chars[from..to]` is a reserved word.
fn keyword_token(chars: &Vec<char>, from: usize, to: usize) -> (r: Option<Token>)
    requires
        from <= to <= chars@.len(),
    ensures
        ({
            let w = chars@.subrange(from as int, to as int);
            match r {
                Some(t) => spec_keyword(w) == Some(t@),
                None => spec_keyword(w) is None,
            }
        }),
{
    let ghost w = chars@.subrange(from as int, to as int);
    let len = to - from;
    proof {
        assert(w.len() == len);
        if len == 2 {
            assert(w =~= seq![w[0], w[1]]);
        }
        if len == 3 {
            assert(w =~= seq![w[0], w[1], w[2]]);
        }
        if len == 4 {
            assert(w =~= seq![w[0], w[1], w[2], w[3]]);
        }
        if len == 5 {
            assert(w =~= seq![w[0], w[1], w[2], w[3], w[4]]);
        }
        if len == 8 {
            assert(w =~= seq![w[0], w[1], w[2], w[3], w[4], w[5], w[6], w[7]]);
        }
    }
    if len == 2 {
        let c0 = chars[from];
        let c1 = chars[from + 1];
        if c0 == 'i' && c1 == 'f' {
            Some(Token::If)
        } else if c0 == 'i' && c1 == 'n' {
            Some(Token::In)
        } else if c0 == 'd' && c1 == 'o' {
            Some(Token::Do)
        } else if c0 == 'f' && c1 == 'i' {
            Some(Token::Fi)
        } else {
            None
        }
    } else if len == 3 {
        let c0 = chars[from];
        let c1 = chars[from + 1];
        let c2 = chars[from + 2];
        if c0 == 'f' && c1 == 'o' && c2 == 'r' {
            Some(Token::For)
        } else {
            None
        }
    } else if len == 4 {
        let c0 = chars[from];
        let c1 = chars[from + 1];
        let c2 = chars[from + 2];
        let c3 = chars[from + 3];
        if c0 == 't' && c1 == 'h' && c2 == 'e' && c3 == 'n' {
            Some(Token::Then)
        } else if c0 == 'e' && c1 == 'l' && c2 == 's' && c3 == 'e' {
            Some(Token::Else)
        } else if c0 == 'e' && c1 == 's' && c2 == 'a' && c3 == 'c' {
            Some(Token::Esac)
        } else if c0 == 'd' && c1 == 'o' && c2 == 'n' && c3 == 'e' {
            Some(Token::Done)
        } else if c0 == 'c' && c1 == 'a' && c2 == 's' && c3 == 'e' {
            Some(Token::Case)
        } else {
            None
        }
    } else if len == 5 {
        let c0 = chars[from];
        let c1 = chars[from + 1];
        let c2 = chars[from + 2];
        let c3 = chars[from + 3];
        let c4 = chars[from + 4];
        if c0 == 'w' && c1 == 'h' && c2 == 'i' && c3 == 'l' && c4 == 'e' {
            Some(Token::While)
        } else if c0 == 'b' && c1 == 'r' && c2 == 'e' && c3 == 'a' && c4 == 'k' {
            Some(Token::Break)
        } else {
            None
        }
    } else if len == 8 {
        let c0 = chars[from];
        let c1 = chars[from + 1];
        let c2 = chars[from + 2];
        let c3 = chars[from + 3];
        let c4 = chars[from + 4];
        let c5 = chars[from + 5];
        let c6 = chars[from + 6];
        let c7 = chars[from + 7];
        if c0 == 'f' && c1 == 'u' && c2 == 'n' && c3 == 'c' && c4 == 't' && c5 == 'i' && c6 == 'o'
            && c7 == 'n' {
            Some(Token::Function)
        } else if c0 == 'c' && c1 == 'o' && c2 == 'n' && c3 == 't' && c4 == 'i' && c5 == 'n'
            && c6 == 'u' && c7 == 'e' {
            Some(Token::Continue)
        } else {
            None
        }
    } else {
        None
    }
}

// ---------------------------------------------------------------------------
// One token
// ---------------------------------------------------------------------------

/// The token (or error) starting at the non-whitespace position `j`, and
/// the position where lexing resumes.
pub open spec fn spec_next_token(s: Seq<char>, j: int) -> (Result<SpecToken, SpecLexerError>, int) {
    let c = s[j];
    if c == '&' {
        if j + 1 < s.len() && s[j + 1] == '&' {
            (Ok(SpecToken::And), j + 2)
        } else {
            (Err(SpecLexerError::UnknownToken), j + 1)
        }
    } else if c == '|' {
        if j + 1 < s.len() && s[j + 1] == '|' {
            (Ok(SpecToken::Or), j + 2)
        } else {
            (Ok(SpecToken::Pipe), j + 1)
        }
    } else if c == ';' {
        (Ok(SpecToken::Semi), j + 1)
    } else if c == '>' {
        if j + 1 < s.len() && s[j + 1] == '>' {
            (Ok(SpecToken::Append), j + 2)
        } else {
            (Ok(SpecToken::Write), j + 1)
        }
    } else if c == '<' {
        if j + 1 < s.len() && s[j + 1] == '<' {
            (Ok(SpecToken::HereDoc), j + 2)
        } else {
            (Ok(SpecToken::Read), j + 1)
        }
    } else if c == '#' {
        (Ok(SpecToken::Comment(s.subrange(j, line_end(s, j)))), line_end(s, j))
    } else if c == '"' {
        match dq_end(s, j + 1) {
            Some(e) => {
                let lexeme = s.subrange(j, e + 1);
                match unescape_spec(lexeme) {
                    Ok(t) => (Ok(SpecToken::DoubleQuotedString(t)), e + 1),
                    Err(er) => (Err(SpecLexerError::Unescape(er)), e + 1),
                }
            },
            None => (Err(SpecLexerError::UnterminatedString), s.len() as int),
        }
    } else if c == '\'' {
        match sq_end(s, j + 1) {
            Some(e) => {
                let lexeme = s.subrange(j, e + 1);
                match unescape_spec(lexeme) {
                    Ok(t) => (Ok(SpecToken::SingleQuotedString(t)), e + 1),
                    Err(er) => (Err(SpecLexerError::Unescape(er)), e + 1),
                }
            },
            None => (Err(SpecLexerError::UnterminatedString), s.len() as int),
        }
    } else if c == '2' && j + 1 < s.len() && s[j + 1] == '>' {
        if j + 2 < s.len() && s[j + 2] == '>' {
            (Ok(SpecToken::ErrAppend), j + 3)
        } else {
            (Ok(SpecToken::ErrWrite), j + 2)
        }
    } else if is_word_char(c) {
        let e = word_end(s, j);
        let w = s.subrange(j, e);
        match spec_keyword(w) {
            Some(t) => (Ok(t), e),
            None => (Ok(SpecToken::Identifier(w)), e),
        }
    } else {
        (Err(SpecLexerError::UnknownToken), j + 1)
    }
}

// ---------------------------------------------------------------------------
// The whole token stream
// ---------------------------------------------------------------------------

/// The token stream of `s` from position `i` onward.
pub open spec fn lex_from(s: Seq<char>, i: int) -> Seq<Result<SpecToken, SpecLexerError>>
    decreases s.len() - i,
    via lex_from_decreases
{
    if i < 0 || i >= s.len() {
        Seq::empty()
    } else {
        let j = skip_ws(s, i);
        if j >= s.len() {
            Seq::empty()
        } else {
            let (t, nx) = spec_next_token(s, j);
            let adv = if nx > j {
                nx
            } else {
                j + 1
            };
            seq![t] + lex_from(s, adv)
        }
    }
}

#[via_fn]
proof fn lex_from_decreases(s: Seq<char>, i: int) {
    if 0 <= i < s.len() {
        lemma_skip_ws_bounds(s, i);
        let j = skip_ws(s, i);
        if j < s.len() {
            lemma_line_end_bounds(s, j);
            lemma_word_end_bounds(s, j);
            lemma_dq_end_bounds(s, j + 1);
            lemma_sq_end_bounds(s, j + 1);
        }
    }
}

/// The token stream of a whole line.
pub open spec fn lex_spec(s: Seq<char>) -> Seq<Result<SpecToken, SpecLexerError>> {
    lex_from(s, 0)
}

/// The mathematical value of one lexing result.
pub open spec fn token_result_view(x: Result<Token, LexerError>) -> Result<
    SpecToken,
    SpecLexerError,
> {
    match x {
        Ok(t) => Ok(t@),
        Err(e) => Err(e@),
    }
}

/// The mathematical value of a vector of lexing results.
pub open spec fn results_view(r: Seq<Result<Token, LexerError>>) -> Seq<
    Result<SpecToken, SpecLexerError>,
> {
    r.map_values(|x: Result<Token, LexerError>| token_result_view(x))
}

/// Lexes a whole command line, collecting tokens and lexical errors in
/// source order.
pub fn lex(cmd: &str) -> (r: Vec<Result<Token, LexerError>>)
    ensures
        results_view(r@) == lex_spec(cmd@),
{
    let chars = str_to_chars(cmd);
    let n = chars.len();
    let mut out: Vec<Result<Token, LexerError>> = Vec::new();
    let mut i: usize = 0;
    proof {
        assert(results_view(out@) =~= Seq::empty());
        assert(Seq::empty() + lex_from(cmd@, 0) =~= lex_from(cmd@, 0));
    }
    while i < n
        invariant
            i <= n,
            n == cmd@.len(),
            chars@ == cmd@,
            lex_spec(cmd@) == results_view(out@) + lex_from(cmd@, i as int),
        decreases n - i,
    {
        let ghost s = cmd@;
        let ghost i0 = i as int;
        let c = chars[i];
        if c == ' ' || c == '\t' || c == '\n' || c == '\u{0C}' {
            i = i + 1;
            proof {
                assert(lex_from(s, i0) == lex_from(s, i as int));
            }
        } else {
            // A token starts here: skip_ws(s, i0) == i0.
            let (tok, nx): (Result<Token, LexerError>, usize) = if c == '&' {
                if i + 1 < n && chars[i + 1] == '&' {
                    (Ok(Token::And), i + 2)
                } else {
                    (Err(LexerError::UnknownToken), i + 1)
                }
            } else if c == '|' {
                if i + 1 < n && chars[i + 1] == '|' {
                    (Ok(Token::Or), i + 2)
                } else {
                    (Ok(Token::Pipe), i + 1)
                }
            } else if c == ';' {
                (Ok(Token::Semi), i + 1)
            } else if c == '>' {
                if i + 1 < n && chars[i + 1] == '>' {
                    (Ok(Token::Append), i + 2)
                } else {
                    (Ok(Token::Write), i + 1)
                }
            } else if c == '<' {
                if i + 1 < n && chars[i + 1] == '<' {
                    (Ok(Token::HereDoc), i + 2)
                } else {
                    (Ok(Token::Read), i + 1)
                }
            } else if c == '#' {
                let mut j: usize = i;
                while j < n && chars[j] != '\n'
                    invariant
                        i <= j <= n,
                        n == s.len(),
                        chars@ == s,
                        line_end(s, i as int) == line_end(s, j as int),
                    decreases n - j,
                {
                    j = j + 1;
                }
                let text = chars_to_string(&chars, i, j);
                (Ok(Token::Comment(text)), j)
            } else if c == '"' {
                let mut j: usize = i + 1;
                let mut unterminated = false;
                let mut closing: usize = 0;
                loop
                    invariant_except_break
                        !unterminated,
                    invariant
                        i0 == i as int,
                        i + 1 <= j <= n,
                        n == s.len(),
                        chars@ == s,
                        dq_end(s, i0 + 1) == dq_end(s, j as int),
                    ensures
                        i + 1 <= j <= n,
                        if unterminated {
                            dq_end(s, i0 + 1) is None
                        } else {
                            i0 + 1 <= closing < n && dq_end(s, i0 + 1) == Some(closing as int)
                        },
                    decreases n - j,
                {
                    if j >= n {
                        proof {
                            assert(dq_end(s, j as int) is None);
                        }
                        unterminated = true;
                        break;
                    }
                    let cj = chars[j];
                    if cj == '"' {
                        proof {
                            assert(dq_end(s, j as int) == Some(j as int));
                        }
                        closing = j;
                        break;
                    } else if cj == '\\' {
                        if j + 1 < n {
                            j = j + 2;
                        } else {
                            proof {
                                assert(dq_end(s, j as int) is None);
                            }
                            unterminated = true;
                            break;
                        }
                    } else {
                        j = j + 1;
                    }
                }
                if unterminated {
                    (Err(LexerError::UnterminatedString), n)
                } else {
                    let lexeme = chars_to_string(&chars, i, closing + 1);
                    match unescape(lexeme.as_str()) {
                        Ok(t) => (Ok(Token::DoubleQuotedString(t)), closing + 1),
                        Err(e) => (Err(LexerError::Unescape(e)), closing + 1),
                    }
                }
            } else if c == '\'' {
                let mut j: usize = i + 1;
                while j < n && chars[j] != '\''
                    invariant
                        i + 1 <= j <= n,
                        n == s.len(),
                        chars@ == s,
                        sq_end(s, i0 + 1) == sq_end(s, j as int),
                    decreases n - j,
                {
                    j = j + 1;
                }
                if j >= n {
                    (Err(LexerError::UnterminatedString), n)
                } else {
                    let lexeme = chars_to_string(&chars, i, j + 1);
                    match unescape(lexeme.as_str()) {
                        Ok(t) => (Ok(Token::SingleQuotedString(t)), j + 1),
                        Err(e) => (Err(LexerError::Unescape(e)), j + 1),
                    }
                }
            } else if c == '2' && i + 1 < n && chars[i + 1] == '>' {
                if i + 2 < n && chars[i + 2] == '>' {
                    (Ok(Token::ErrAppend), i + 3)
                } else {
                    (Ok(Token::ErrWrite), i + 2)
                }
            } else {
                if word_char(c) {
                    let mut j: usize = i;
                    while j < n && word_char(chars[j])
                        invariant
                            i <= j <= n,
                            n == s.len(),
                            chars@ == s,
                            word_end(s, i as int) == word_end(s, j as int),
                        decreases n - j,
                    {
                        j = j + 1;
                    }
                    match keyword_token(&chars, i, j) {
                        Some(t) => (Ok(t), j),
                        None => {
                            let text = chars_to_string(&chars, i, j);
                            (Ok(Token::Identifier(text)), j)
                        },
                    }
                } else {
                    (Err(LexerError::UnknownToken), i + 1)
                }
            };
            proof {
                assert(skip_ws(s, i0) == i0);
                assert((token_result_view(tok), nx as int) == spec_next_token(s, i0));
                assert(nx > i0);
                let stepped = lex_from(s, nx as int);
                assert(lex_from(s, i0) == seq![token_result_view(tok)] + stepped);
                assert(results_view(out@.push(tok)) =~= results_view(out@) + seq![
                    token_result_view(tok),
                ]);
                assert((results_view(out@) + seq![token_result_view(tok)]) + stepped
                    =~= results_view(out@) + (seq![token_result_view(tok)] + stepped));
            }
            out.push(tok);
            i = nx;
        }
    }
    proof {
        assert(lex_from(cmd@, i as int) =~= Seq::empty());
        assert(results_view(out@) + Seq::empty() =~= results_view(out@));
    }
    out
}

} // verus!
