//! Escape decoding for quoted command-line segments.
//!
//! Inside single quotes no escapes are processed and the quote character
//! alone terminates the segment. Inside double quotes a backslash starts an
//! escape: a fixed set of one-character escapes, and `\u{...}` for a
//! brace-delimited hexadecimal Unicode scalar. Anything else after a
//! backslash, or a trailing backslash, is an error that names the offending
//! escape, its index, and the whole source string.

use vstd::prelude::*;
use crate::strutil::{str_to_chars, push_char, chars_to_string, char_from_u32, is_unicode_scalar};

verus! {

/// Where the decoder stands relative to quoting.
#[derive(Debug, Clone, Copy, PartialEq, Eq)]
pub enum QuoteMode {
    Normal,
    Single,
    Double,
}

// ---------------------------------------------------------------------------
// Hexadecimal digits
// ---------------------------------------------------------------------------

pub open spec fn is_hex_digit(c: char) -> bool {
    (48 <= c as u32 && c as u32 <= 57)  // '0'..='9'
    || (97 <= c as u32 && c as u32 <= 102)  // 'a'..='f'
    || (65 <= c as u32 && c as u32 <= 70)  // 'A'..='F'
}

pub open spec fn spec_hex_digit_val(c: char) -> int {
    if 48 <= c as u32 && c as u32 <= 57 {
        c as u32 - 48
    } else if 97 <= c as u32 && c as u32 <= 102 {
        c as u32 - 97 + 10
    } else if 65 <= c as u32 && c as u32 <= 70 {
        c as u32 - 65 + 10
    } else {
        0
    }
}

pub open spec fn all_hex_digits(h: Seq<char>) -> bool {
    forall|k: int| 0 <= k < h.len() ==> is_hex_digit(#[trigger] h[k])
}

/// The numeric value of a big-endian sequence of hex digits.
pub open spec fn spec_hex_val(h: Seq<char>) -> int
    decreases h.len(),
{
    if h.len() == 0 {
        0
    } else {
        spec_hex_val(h.drop_last()) * 16 + spec_hex_digit_val(h.last())
    }
}

proof fn lemma_hex_val_nonneg(h: Seq<char>)
    ensures
        spec_hex_val(h) >= 0,
    decreases h.len(),
{
    if h.len() > 0 {
        lemma_hex_val_nonneg(h.drop_last());
    }
}

/// A longer digit string never has a smaller value than any of its prefixes.
proof fn lemma_hex_val_prefix_mono(h: Seq<char>, k: int)
    requires
        0 <= k <= h.len(),
    ensures
        spec_hex_val(h) >= spec_hex_val(h.subrange(0, k)),
    decreases h.len() - k,
{
    if k == h.len() {
        assert(h.subrange(0, k) =~= h);
    } else {
        lemma_hex_val_prefix_mono(h, k + 1);
        let p1 = h.subrange(0, k + 1);
        assert(p1.drop_last() =~= h.subrange(0, k));
        lemma_hex_val_nonneg(h.subrange(0, k));
        assert(spec_hex_val(p1) >= spec_hex_val(h.subrange(0, k)));
    }
}

// ---------------------------------------------------------------------------
// The shape of a `\u{...}` escape
// ---------------------------------------------------------------------------

/// Index of the first closing brace at or after `i`, or the length of `s`
/// if there is none.
pub open spec fn find_close_brace(s: Seq<char>, i: int) -> int
    decreases s.len() - i,
{
    if i < 0 || i >= s.len() {
        s.len() as int
    } else if s[i] == '}' {
        i
    } else {
        find_close_brace(s, i + 1)
    }
}

proof fn lemma_find_close_bounds(s: Seq<char>, i: int)
    requires
        0 <= i <= s.len(),
    ensures
        i <= find_close_brace(s, i) <= s.len(),
    decreases s.len() - i,
{
    if i < s.len() && s[i] != '}' {
        lemma_find_close_bounds(s, i + 1);
    }
}

proof fn lemma_find_close_at(s: Seq<char>, i: int, j: int)
    requires
        0 <= i <= j <= s.len(),
        forall|m: int| i <= m < j ==> s[m] != '}',
        j == s.len() || s[j] == '}',
    ensures
        find_close_brace(s, i) == j,
    decreases j - i,
{
    if i < j {
        lemma_find_close_at(s, i + 1, j);
    }
}

/// Failure to read a `\u{...}` escape, over mathematical values.
pub enum SpecParseUnicodeError {
    BraceNotFound,
    ParseHexFailed { string: Seq<char> },
    ParseUnicodeFailed { value: u32 },
}

/// What scanning a `\u` escape finds, starting right after the `u`.
pub enum SpecUniScan {
    Found { c: char, next: int },
    Bad { err: SpecParseUnicodeError },
}

pub open spec fn spec_scan_unicode(s: Seq<char>, p: int) -> SpecUniScan {
    if p >= s.len() || s[p] != '{' {
        SpecUniScan::Bad { err: SpecParseUnicodeError::BraceNotFound }
    } else {
        let close = find_close_brace(s, p + 1);
        let h = s.subrange(p + 1, close);
        let next = if close < s.len() { close + 1 } else { s.len() as int };
        if h.len() == 0 || !all_hex_digits(h) || spec_hex_val(h) > u32::MAX as int {
            SpecUniScan::Bad { err: SpecParseUnicodeError::ParseHexFailed { string: h } }
        } else if !is_unicode_scalar(spec_hex_val(h) as u32) {
            SpecUniScan::Bad {
                err: SpecParseUnicodeError::ParseUnicodeFailed { value: spec_hex_val(h) as u32 },
            }
        } else {
            SpecUniScan::Found { c: (spec_hex_val(h) as u32) as char, next }
        }
    }
}

// ---------------------------------------------------------------------------
// One-character escapes
// ---------------------------------------------------------------------------

pub open spec fn is_escape_char(c: char) -> bool {
    c == 'a' || c == 'b' || c == 'v' || c == 'f' || c == 'n' || c == 'r' || c == 't' || c == 'e'
        || c == 'E' || c == '\\' || c == '\'' || c == '"' || c == '$' || c == '`' || c == ' '
}

pub open spec fn spec_escape_char(c: char) -> char {
    if c == 'a' {
        '\u{07}'
    } else if c == 'b' {
        '\u{08}'
    } else if c == 'v' {
        '\u{0B}'
    } else if c == 'f' {
        '\u{0C}'
    } else if c == 'n' {
        '\n'
    } else if c == 'r' {
        '\r'
    } else if c == 't' {
        '\t'
    } else if c == 'e' || c == 'E' {
        '\u{1B}'
    } else {
        c
    }
}

// ---------------------------------------------------------------------------
// The decoder's specification
// ---------------------------------------------------------------------------

/// Failure to decode a quoted segment, over mathematical values.
pub enum SpecUnescapeError {
    InvalidEscape { escape: Seq<char>, index: int, string: Seq<char> },
    InvalidUnicode { source: SpecParseUnicodeError, index: int, string: Seq<char> },
}

pub open spec fn prepend(c: char, r: Result<Seq<char>, SpecUnescapeError>) -> Result<
    Seq<char>,
    SpecUnescapeError,
> {
    match r {
        Ok(t) => Ok(seq![c] + t),
        Err(e) => Err(e),
    }
}

/// Decoding of `s` from position `i` onward, in the given quote mode.
pub open spec fn unescape_from(s: Seq<char>, i: int, mode: QuoteMode) -> Result<
    Seq<char>,
    SpecUnescapeError,
>
    decreases s.len() - i,
{
    if i < 0 || i >= s.len() {
        Ok(Seq::empty())
    } else {
        let c = s[i];
        match mode {
            QuoteMode::Single => {
                if c == '\'' {
                    unescape_from(s, i + 1, QuoteMode::Normal)
                } else {
                    prepend(c, unescape_from(s, i + 1, QuoteMode::Single))
                }
            },
            QuoteMode::Normal => {
                if c == '\'' {
                    unescape_from(s, i + 1, QuoteMode::Single)
                } else if c == '"' {
                    unescape_from(s, i + 1, QuoteMode::Double)
                } else {
                    prepend(c, unescape_from(s, i + 1, QuoteMode::Normal))
                }
            },
            QuoteMode::Double => {
                if c == '"' {
                    unescape_from(s, i + 1, QuoteMode::Normal)
                } else if c == '\\' {
                    if i + 1 >= s.len() {
                        Err(SpecUnescapeError::InvalidEscape {
                            escape: seq!['\\'],
                            index: i,
                            string: s,
                        })
                    } else {
                        let c2 = s[i + 1];
                        if is_escape_char(c2) {
                            prepend(spec_escape_char(c2), unescape_from(s, i + 2, QuoteMode::Double))
                        } else if c2 == 'u' {
                            match spec_scan_unicode(s, i + 2) {
                                SpecUniScan::Bad { err } => Err(
                                    SpecUnescapeError::InvalidUnicode {
                                        source: err,
                                        index: i + 1,
                                        string: s,
                                    },
                                ),
                                SpecUniScan::Found { c: uc, next } => {
                                    let adv = if next > i + 1 {
                                        next
                                    } else {
                                        i + 2
                                    };
                                    prepend(uc, unescape_from(s, adv, QuoteMode::Double))
                                },
                            }
                        } else {
                            Err(SpecUnescapeError::InvalidEscape {
                                escape: seq!['\\', c2],
                                index: i + 1,
                                string: s,
                            })
                        }
                    }
                } else {
                    prepend(c, unescape_from(s, i + 1, QuoteMode::Double))
                }
            },
        }
    }
}

/// What decoding a whole string yields.
pub open spec fn unescape_spec(s: Seq<char>) -> Result<Seq<char>, SpecUnescapeError> {
    unescape_from(s, 0, QuoteMode::Normal)
}

/// Decoding the whole string equals the accumulator so far followed by
/// decoding the rest from position `i` in the given mode.
pub open spec fn resumes(s: Seq<char>, i: int, mode: QuoteMode, acc: Seq<char>) -> bool {
    unescape_spec(s) == (match unescape_from(s, i, mode) {
        Ok(t) => Ok::<Seq<char>, SpecUnescapeError>(acc + t),
        Err(e) => Err::<Seq<char>, SpecUnescapeError>(e),
    })
}

/// Decoding a double-quoted escape yields exactly the character the
/// escape names, for every escape in the supported set.
pub proof fn lemma_escape_round_trip(c: char)
    requires
        is_escape_char(c),
    ensures
        unescape_spec(seq!['"', '\\', c, '"']) == Ok::<Seq<char>, SpecUnescapeError>(
            seq![spec_escape_char(c)],
        ),
{
    let s = seq!['"', '\\', c, '"'];
    reveal_with_fuel(unescape_from, 5);
    assert(unescape_from(s, 4, QuoteMode::Normal) == Ok::<Seq<char>, SpecUnescapeError>(
        Seq::empty(),
    ));
    assert(unescape_from(s, 3, QuoteMode::Double) == Ok::<Seq<char>, SpecUnescapeError>(
        Seq::empty(),
    ));
    assert(unescape_from(s, 1, QuoteMode::Double) == prepend(
        spec_escape_char(c),
        unescape_from(s, 3, QuoteMode::Double),
    ));
    assert(seq![spec_escape_char(c)] + Seq::<char>::empty() =~= seq![spec_escape_char(c)]);
}

// ---------------------------------------------------------------------------
// Executable error values
// ---------------------------------------------------------------------------

/// Failure to read the `\u{...}` form of an escape.
#[derive(Debug, PartialEq, Eq)]
pub enum ParseUnicodeError {
    /// The escape did not open with `{`.
    BraceNotFound,
    /// The bracketed text is not parseable as hexadecimal `u32`.
    ParseHexFailed { string: String },
    /// The number is not a Unicode scalar value.
    ParseUnicodeFailed { value: u32 },
}

impl View for ParseUnicodeError {
    type V = SpecParseUnicodeError;

    open spec fn view(&self) -> SpecParseUnicodeError {
        match self {
            ParseUnicodeError::BraceNotFound => SpecParseUnicodeError::BraceNotFound,
            ParseUnicodeError::ParseHexFailed { string } => SpecParseUnicodeError::ParseHexFailed {
                string: string@,
            },
            ParseUnicodeError::ParseUnicodeFailed { value } => {
                SpecParseUnicodeError::ParseUnicodeFailed { value: *value }
            },
        }
    }
}

impl DeepView for ParseUnicodeError {
    type V = SpecParseUnicodeError;

    open spec fn deep_view(&self) -> SpecParseUnicodeError {
        self.view()
    }
}

impl Clone for ParseUnicodeError {
    /// The clone is the same error.
    fn clone(&self) -> (r: Self)
        ensures
            r@ == self@,
    {
        match self {
            ParseUnicodeError::BraceNotFound => ParseUnicodeError::BraceNotFound,
            ParseUnicodeError::ParseHexFailed { string } => ParseUnicodeError::ParseHexFailed {
                string: string.clone(),
            },
            ParseUnicodeError::ParseUnicodeFailed { value } => {
                ParseUnicodeError::ParseUnicodeFailed { value: *value }
            },
        }
    }
}

/// Failure to decode a quoted segment.
#[derive(Debug, PartialEq)]
pub enum UnescapeError {
    /// An unrecognized escape, or a trailing backslash.
    InvalidEscape { escape: String, index: usize, string: String },
    /// A malformed `\u{...}` escape.
    InvalidUnicode { source: ParseUnicodeError, index: usize, string: String },
}

impl View for UnescapeError {
    type V = SpecUnescapeError;

    open spec fn view(&self) -> SpecUnescapeError {
        match self {
            UnescapeError::InvalidEscape { escape, index, string } => {
                SpecUnescapeError::InvalidEscape {
                    escape: escape@,
                    index: *index as int,
                    string: string@,
                }
            },
            UnescapeError::InvalidUnicode { source, index, string } => {
                SpecUnescapeError::InvalidUnicode {
                    source: source@,
                    index: *index as int,
                    string: string@,
                }
            },
        }
    }
}

impl DeepView for UnescapeError {
    type V = SpecUnescapeError;

    open spec fn deep_view(&self) -> SpecUnescapeError {
        self.view()
    }
}

impl Clone for UnescapeError {
    /// The clone is the same error.
    fn clone(&self) -> (r: Self)
        ensures
            r@ == self@,
    {
        match self {
            UnescapeError::InvalidEscape { escape, index, string } => {
                UnescapeError::InvalidEscape {
                    escape: escape.clone(),
                    index: *index,
                    string: string.clone(),
                }
            },
            UnescapeError::InvalidUnicode { source, index, string } => {
                UnescapeError::InvalidUnicode {
                    source: source.clone(),
                    index: *index,
                    string: string.clone(),
                }
            },
        }
    }
}

// ---------------------------------------------------------------------------
// Executable decoding
// ---------------------------------------------------------------------------

/// Reads the hex digits `chars[from..to]` as a `u32`, or reports why not.
fn parse_hex_chars(chars: &Vec<char>, from: usize, to: usize) -> (r: Option<u32>)
    requires
        from <= to <= chars@.len(),
    ensures
        ({
            let h = chars@.subrange(from as int, to as int);
            match r {
                Some(v) => h.len() > 0 && all_hex_digits(h) && spec_hex_val(h) == v as int,
                None => h.len() == 0 || !all_hex_digits(h) || spec_hex_val(h) > u32::MAX as int,
            }
        }),
{
    let ghost h = chars@.subrange(from as int, to as int);
    if from == to {
        return None;
    }
    let mut acc: u64 = 0;
    let mut j: usize = from;
    while j < to
        invariant
            from <= j <= to <= chars@.len(),
            h == chars@.subrange(from as int, to as int),
            all_hex_digits(chars@.subrange(from as int, j as int)),
            spec_hex_val(chars@.subrange(from as int, j as int)) == acc as int,
            acc <= u32::MAX,
        decreases to - j,
    {
        let c = chars[j];
        let u = c as u32;
        let d: u32 = if 48 <= u && u <= 57 {
            u - 48
        } else if 97 <= u && u <= 102 {
            u - 97 + 10
        } else if 65 <= u && u <= 70 {
            u - 65 + 10
        } else {
            proof {
                assert(h[j - from] == chars@[j as int]);
                assert(!is_hex_digit(h[j - from]));
                assert(!all_hex_digits(h));
            }
            return None;
        };
        acc = acc * 16 + d as u64;
        proof {
            let pre = chars@.subrange(from as int, j as int);
            let cur = chars@.subrange(from as int, j + 1 as int);
            assert(cur.drop_last() =~= pre);
            assert(cur.last() == chars@[j as int]);
            assert(spec_hex_val(cur) == acc as int);
        }
        if acc > 0xFFFF_FFFF {
            proof {
                let cur = chars@.subrange(from as int, j + 1 as int);
                assert(cur =~= h.subrange(0, j + 1 - from));
                lemma_hex_val_prefix_mono(h, j + 1 - from);
                assert(spec_hex_val(h) > u32::MAX as int);
            }
            return None;
        }
        j = j + 1;
    }
    proof {
        assert(chars@.subrange(from as int, to as int) =~= h);
    }
    Some(acc as u32)
}

/// Reads the body of a `\u` escape beginning at `start` (the position right
/// after the `u`), returning the decoded character or the failure, and the
/// position where lexing resumes.
pub fn parse_unicode(chars: &Vec<char>, start: usize) -> (r: (
    Result<char, ParseUnicodeError>,
    usize,
))
    requires
        start <= chars@.len(),
    ensures
        ({
            let sc = spec_scan_unicode(chars@, start as int);
            match r.0 {
                Ok(c) => sc matches SpecUniScan::Found { c: fc, next } && c == fc && r.1 == next,
                Err(e) => sc matches SpecUniScan::Bad { err } && e@ == err,
            }
        }),
{
    let n = chars.len();
    if start >= n || chars[start] != '{' {
        return (Err(ParseUnicodeError::BraceNotFound), start);
    }
    let mut j: usize = start + 1;
    while j < n && chars[j] != '}'
        invariant
            start + 1 <= j <= n,
            n == chars@.len(),
            forall|m: int| start + 1 <= m < j ==> chars@[m] != '}',
        decreases n - j,
    {
        j = j + 1;
    }
    proof {
        lemma_find_close_at(chars@, start + 1 as int, j as int);
    }
    let close = j;
    let next = if close < n {
        close + 1
    } else {
        n
    };
    match parse_hex_chars(chars, start + 1, close) {
        None => {
            let hstr = chars_to_string(chars, start + 1, close);
            (Err(ParseUnicodeError::ParseHexFailed { string: hstr }), next)
        },
        Some(v) => {
            if !(v < 0xD800 || (0xE000 <= v && v <= 0x10FFFF)) {
                (Err(ParseUnicodeError::ParseUnicodeFailed { value: v }), next)
            } else {
                match char_from_u32(v) {
                    Some(c) => {
                        proof {
                            vstd::utf8::char_u32_cast(c, v);
                        }
                        (Ok(c), next)
                    },
                    None => {
                        proof {
                            assert(false);
                        }
                        (Err(ParseUnicodeError::BraceNotFound), next)
                    },
                }
            }
        },
    }
}

/// Decodes quoting and escapes in `s`: single- and double-quote characters
/// delimit segments and are dropped, and escapes inside double quotes are
/// replaced by the character they name. Errors carry the offending escape,
/// its character index, and the whole source string.
pub fn unescape(s: &str) -> (r: Result<String, UnescapeError>)
    ensures
        match r {
            Ok(t) => unescape_spec(s@) == Ok::<Seq<char>, SpecUnescapeError>(t@),
            Err(e) => unescape_spec(s@) == Err::<Seq<char>, SpecUnescapeError>(e@),
        },
{
    let chars = str_to_chars(s);
    let n = chars.len();
    let mut res = String::new();
    let mut i: usize = 0;
    let mut mode = QuoteMode::Normal;
    proof {
        match unescape_from(s@, 0, QuoteMode::Normal) {
            Ok(t) => {
                assert(Seq::<char>::empty() + t =~= t);
            },
            Err(_) => {},
        }
    }
    while i < n
        invariant
            i <= n,
            n == s@.len(),
            chars@ == s@,
            resumes(s@, i as int, mode, res@),
        decreases n - i,
    {
        let ghost i0 = i as int;
        let ghost mode0 = mode;
        let ghost acc0 = res@;
        let c = chars[i];
        match mode {
            QuoteMode::Single => {
                if c == '\'' {
                    mode = QuoteMode::Normal;
                    i = i + 1;
                } else {
                    push_char(&mut res, c);
                    i = i + 1;
                    proof {
                        match unescape_from(s@, i0 + 1, QuoteMode::Single) {
                            Ok(t) => {
                                assert(acc0 + (seq![c] + t) =~= acc0.push(c) + t);
                            },
                            Err(_) => {},
                        }
                    }
                }
            },
            QuoteMode::Normal => {
                if c == '\'' {
                    mode = QuoteMode::Single;
                    i = i + 1;
                } else if c == '"' {
                    mode = QuoteMode::Double;
                    i = i + 1;
                } else {
                    push_char(&mut res, c);
                    i = i + 1;
                    proof {
                        match unescape_from(s@, i0 + 1, QuoteMode::Normal) {
                            Ok(t) => {
                                assert(acc0 + (seq![c] + t) =~= acc0.push(c) + t);
                            },
                            Err(_) => {},
                        }
                    }
                }
            },
            QuoteMode::Double => {
                if c == '"' {
                    mode = QuoteMode::Normal;
                    i = i + 1;
                } else if c == '\\' {
                    if i + 1 >= n {
                        let mut esc = String::new();
                        push_char(&mut esc, '\\');
                        proof {
                            assert(esc@ =~= seq!['\\']);
                        }
                        return Err(UnescapeError::InvalidEscape {
                            escape: esc,
                            index: i,
                            string: s.to_owned(),
                        });
                    }
                    let c2 = chars[i + 1];
                    let is_simple = c2 == 'a' || c2 == 'b' || c2 == 'v' || c2 == 'f' || c2 == 'n'
                        || c2 == 'r' || c2 == 't' || c2 == 'e' || c2 == 'E' || c2 == '\\'
                        || c2 == '\'' || c2 == '"' || c2 == '$' || c2 == '`' || c2 == ' ';
                    if is_simple {
                        let mapped: char = if c2 == 'a' {
                            '\u{07}'
                        } else if c2 == 'b' {
                            '\u{08}'
                        } else if c2 == 'v' {
                            '\u{0B}'
                        } else if c2 == 'f' {
                            '\u{0C}'
                        } else if c2 == 'n' {
                            '\n'
                        } else if c2 == 'r' {
                            '\r'
                        } else if c2 == 't' {
                            '\t'
                        } else if c2 == 'e' || c2 == 'E' {
                            '\u{1B}'
                        } else {
                            c2
                        };
                        push_char(&mut res, mapped);
                        i = i + 2;
                        proof {
                            assert(mapped == spec_escape_char(c2));
                            match unescape_from(s@, i0 + 2, QuoteMode::Double) {
                                Ok(t) => {
                                    assert(acc0 + (seq![mapped] + t) =~= acc0.push(mapped) + t);
                                },
                                Err(_) => {},
                            }
                        }
                    } else if c2 == 'u' {
                        let (scan, next) = parse_unicode(&chars, i + 2);
                        match scan {
                            Err(src) => {
                                return Err(UnescapeError::InvalidUnicode {
                                    source: src,
                                    index: i + 1,
                                    string: s.to_owned(),
                                });
                            },
                            Ok(uc) => {
                                proof {
                                    lemma_find_close_bounds(s@, i0 + 3);
                                }
                                push_char(&mut res, uc);
                                i = next;
                                proof {
                                    let sc = spec_scan_unicode(s@, i0 + 2);
                                    assert(sc matches SpecUniScan::Found { c: fc, next: fnx }
                                        && fc == uc && fnx == next as int);
                                    assert(next as int > i0 + 1);
                                    match unescape_from(s@, next as int, QuoteMode::Double) {
                                        Ok(t) => {
                                            assert(acc0 + (seq![uc] + t) =~= acc0.push(uc) + t);
                                        },
                                        Err(_) => {},
                                    }
                                }
                            },
                        }
                    } else {
                        let mut esc = String::new();
                        push_char(&mut esc, '\\');
                        push_char(&mut esc, c2);
                        proof {
                            assert(esc@ =~= seq!['\\', c2]);
                        }
                        return Err(UnescapeError::InvalidEscape {
                            escape: esc,
                            index: i + 1,
                            string: s.to_owned(),
                        });
                    }
                } else {
                    push_char(&mut res, c);
                    i = i + 1;
                    proof {
                        match unescape_from(s@, i0 + 1, QuoteMode::Double) {
                            Ok(t) => {
                                assert(acc0 + (seq![c] + t) =~= acc0.push(c) + t);
                            },
                            Err(_) => {},
                        }
                    }
                }
            },
        }
    }
    proof {
        assert(res@ + Seq::<char>::empty() =~= res@);
    }
    Ok(res)
}

} // verus!

