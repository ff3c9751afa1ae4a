//! The parser: a token stream folded left-to-right into an execution plan.
//!
//! Word tokens accumulate into a pending command; comment tokens are
//! dropped; a chaining operator (`&&`, `||`, `|`) closes the pending
//! command into an `Execute` node and combines it with any previously
//! pending operator, strictly left to right and with no precedence
//! distinction: `a | b && c` parses as `(a | b) && c`. This left fold is
//! the grammar of record.
//!
//! A redirection operator (`>`, `>>`, `2>`, `2>>`) must follow the words
//! of a command and be followed by the target file name; it wraps the
//! command in a `RedirectPipe` node before any chaining. Empty input
//! yields an explicit `NoOp`, never an error. If the lexer produced any
//! errors, parsing fails at once with the aggregated list.

use vstd::prelude::*;
use crate::plan::{
    ExecutionPlan, PipeRedirection, PipeType, SpecPipeRedirection, SpecPipeType, SpecPlan,
    plan_view,
};
use crate::token::{
    lex, lex_spec, results_view, token_result_view, LexerError, SpecLexerError, SpecToken, Token,
};

verus! {

// ---------------------------------------------------------------------------
// Errors
// ---------------------------------------------------------------------------

/// Why a command line does not parse, over mathematical values.
pub enum SpecCommandParseError {
    Lexer(Seq<SpecLexerError>),
    MissingCommand,
    MissingRedirectTarget,
    UnexpectedToken,
    UnsupportedToken,
}

/// Why a command line does not parse.
#[derive(Debug, PartialEq)]
pub enum CommandParseError {
    /// The lexer failed; every lexical error of the line, in order.
    Lexer(Vec<LexerError>),
    /// An operator with no command before it, or a dangling operator at
    /// the end of the line.
    MissingCommand,
    /// A redirection operator without its target file name.
    MissingRedirectTarget,
    /// A word where none may follow, such as after a redirection target.
    UnexpectedToken,
    /// A token today's grammar reserves but does not accept.
    UnsupportedToken,
}

impl View for CommandParseError {
    type V = SpecCommandParseError;

    open spec fn view(&self) -> SpecCommandParseError {
        match self {
            CommandParseError::Lexer(es) => SpecCommandParseError::Lexer(es.deep_view()),
            CommandParseError::MissingCommand => SpecCommandParseError::MissingCommand,
            CommandParseError::MissingRedirectTarget => {
                SpecCommandParseError::MissingRedirectTarget
            },
            CommandParseError::UnexpectedToken => SpecCommandParseError::UnexpectedToken,
            CommandParseError::UnsupportedToken => SpecCommandParseError::UnsupportedToken,
        }
    }
}

// ---------------------------------------------------------------------------
// The pending operator
// ---------------------------------------------------------------------------

/// An operator whose left operand is closed and whose right operand is
/// still being accumulated, over mathematical values.
pub enum SpecIncompleteOperator {
    And(SpecPlan),
    Or(SpecPlan),
    Pipe(SpecPlan),
}

/// An operator whose left operand is closed and whose right operand is
/// still being accumulated.
#[derive(Debug)]
pub enum IncompleteOperator {
    And(ExecutionPlan),
    Or(ExecutionPlan),
    Pipe(ExecutionPlan),
}

impl View for IncompleteOperator {
    type V = SpecIncompleteOperator;

    open spec fn view(&self) -> SpecIncompleteOperator {
        match self {
            IncompleteOperator::And(p) => SpecIncompleteOperator::And(plan_view(*p)),
            IncompleteOperator::Or(p) => SpecIncompleteOperator::Or(plan_view(*p)),
            IncompleteOperator::Pipe(p) => SpecIncompleteOperator::Pipe(plan_view(*p)),
        }
    }
}

// ---------------------------------------------------------------------------
// Splitting the lexer's results
// ---------------------------------------------------------------------------

/// The lexical errors of a lexing run, in order.
pub open spec fn spec_errors(rs: Seq<Result<SpecToken, SpecLexerError>>) -> Seq<SpecLexerError>
    decreases rs.len(),
{
    if rs.len() == 0 {
        Seq::empty()
    } else {
        let rest = spec_errors(rs.drop_first());
        match rs[0] {
            Ok(_) => rest,
            Err(e) => seq![e] + rest,
        }
    }
}

/// The tokens of a lexing run, errors dropped, in order.
pub open spec fn spec_oks(rs: Seq<Result<SpecToken, SpecLexerError>>) -> Seq<SpecToken>
    decreases rs.len(),
{
    if rs.len() == 0 {
        Seq::empty()
    } else {
        let rest = spec_oks(rs.drop_first());
        match rs[0] {
            Ok(t) => seq![t] + rest,
            Err(_) => rest,
        }
    }
}

// ---------------------------------------------------------------------------
// The parsing automaton
// ---------------------------------------------------------------------------

/// The parser's running state.
pub struct SpecParserState {
    /// Words of the command being accumulated.
    pub words: Seq<Seq<char>>,
    /// The incomplete operator whose right side is being accumulated.
    pub pending: Option<SpecIncompleteOperator>,
    /// A complete redirection parsed for the current command.
    pub redir: Option<SpecPipeRedirection>,
    /// A redirection operator still waiting for its target: source and
    /// append flag.
    pub awaiting: Option<(SpecPipeType, bool)>,
}

pub open spec fn spec_init_state() -> SpecParserState {
    SpecParserState { words: Seq::empty(), pending: None, redir: None, awaiting: None }
}

pub open spec fn is_word_token(t: SpecToken) -> bool {
    match t {
        SpecToken::Identifier(_) | SpecToken::DoubleQuotedString(_)
        | SpecToken::SingleQuotedString(_) => true,
        _ => false,
    }
}

pub open spec fn word_text(t: SpecToken) -> Seq<char> {
    match t {
        SpecToken::Identifier(s) => s,
        SpecToken::DoubleQuotedString(s) => s,
        SpecToken::SingleQuotedString(s) => s,
        _ => Seq::empty(),
    }
}

pub open spec fn is_chain_op(t: SpecToken) -> bool {
    t is And || t is Or || t is Pipe
}

pub open spec fn is_redirect_op(t: SpecToken) -> bool {
    t is Write || t is Append || t is ErrWrite || t is ErrAppend
}

pub open spec fn redirect_source(t: SpecToken) -> SpecPipeType {
    if t is Write || t is Append {
        SpecPipeType::Stdout
    } else {
        SpecPipeType::Stderr
    }
}

pub open spec fn redirect_appends(t: SpecToken) -> bool {
    t is Append || t is ErrAppend
}

/// Closes the accumulated words into an `Execute` node, wraps it in its
/// redirection if one was parsed, and combines it with the pending
/// operator as that operator's right side.
pub open spec fn spec_close_term(
    words: Seq<Seq<char>>,
    redir: Option<SpecPipeRedirection>,
    pending: Option<SpecIncompleteOperator>,
) -> SpecPlan
    recommends
        words.len() > 0,
{
    let node = SpecPlan::Execute(words[0], words.drop_first());
    let node2 = match redir {
        Some(r) => SpecPlan::RedirectPipe(Box::new(node), r),
        None => node,
    };
    match pending {
        None => node2,
        Some(SpecIncompleteOperator::And(l)) => SpecPlan::And(Box::new(l), Box::new(node2)),
        Some(SpecIncompleteOperator::Or(l)) => SpecPlan::Or(Box::new(l), Box::new(node2)),
        Some(SpecIncompleteOperator::Pipe(l)) => SpecPlan::Pipe(Box::new(l), Box::new(node2)),
    }
}

pub open spec fn spec_op_pending(t: SpecToken, left: SpecPlan) -> SpecIncompleteOperator {
    match t {
        SpecToken::And => SpecIncompleteOperator::And(left),
        SpecToken::Or => SpecIncompleteOperator::Or(left),
        _ => SpecIncompleteOperator::Pipe(left),
    }
}

/// One token's effect on the parser state.
pub open spec fn parse_step(st: SpecParserState, t: SpecToken) -> Result<
    SpecParserState,
    SpecCommandParseError,
> {
    if t is Comment {
        Ok(st)
    } else if is_word_token(t) {
        match st.awaiting {
            Some(aw) => Ok(
                SpecParserState {
                    words: st.words,
                    pending: st.pending,
                    redir: Some(
                        SpecPipeRedirection {
                            from: aw.0,
                            to: SpecPipeType::File(word_text(t)),
                            append: aw.1,
                        },
                    ),
                    awaiting: None,
                },
            ),
            None => {
                if st.redir is Some {
                    Err(SpecCommandParseError::UnexpectedToken)
                } else {
                    Ok(
                        SpecParserState {
                            words: st.words.push(word_text(t)),
                            pending: st.pending,
                            redir: st.redir,
                            awaiting: st.awaiting,
                        },
                    )
                }
            },
        }
    } else if is_chain_op(t) {
        if st.awaiting is Some {
            Err(SpecCommandParseError::MissingRedirectTarget)
        } else if st.words.len() == 0 {
            Err(SpecCommandParseError::MissingCommand)
        } else {
            Ok(
                SpecParserState {
                    words: Seq::empty(),
                    pending: Some(
                        spec_op_pending(t, spec_close_term(st.words, st.redir, st.pending)),
                    ),
                    redir: None,
                    awaiting: None,
                },
            )
        }
    } else if is_redirect_op(t) {
        if st.awaiting is Some {
            Err(SpecCommandParseError::MissingRedirectTarget)
        } else if st.words.len() == 0 {
            Err(SpecCommandParseError::MissingCommand)
        } else if st.redir is Some {
            Err(SpecCommandParseError::UnexpectedToken)
        } else {
            Ok(
                SpecParserState {
                    words: st.words,
                    pending: st.pending,
                    redir: st.redir,
                    awaiting: Some((redirect_source(t), redirect_appends(t))),
                },
            )
        }
    } else {
        Err(SpecCommandParseError::UnsupportedToken)
    }
}

/// The plan of what was accumulated once the tokens end.
pub open spec fn spec_parse_finish(st: SpecParserState) -> Result<
    SpecPlan,
    SpecCommandParseError,
> {
    if st.awaiting is Some {
        Err(SpecCommandParseError::MissingRedirectTarget)
    } else if st.words.len() > 0 {
        Ok(spec_close_term(st.words, st.redir, st.pending))
    } else if st.pending is Some {
        Err(SpecCommandParseError::MissingCommand)
    } else if st.redir is Some {
        Err(SpecCommandParseError::MissingCommand)
    } else {
        Ok(SpecPlan::NoOp)
    }
}

/// Folds a token sequence through the parser, left to right.
pub open spec fn parse_fold(st: SpecParserState, ts: Seq<SpecToken>) -> Result<
    SpecPlan,
    SpecCommandParseError,
>
    decreases ts.len(),
{
    if ts.len() == 0 {
        spec_parse_finish(st)
    } else {
        match parse_step(st, ts[0]) {
            Ok(st2) => parse_fold(st2, ts.drop_first()),
            Err(e) => Err(e),
        }
    }
}

/// What parsing a whole command line yields: the aggregated lexical
/// errors if there are any, else the left fold of the tokens.
pub open spec fn parse_command_spec(s: Seq<char>) -> Result<SpecPlan, SpecCommandParseError> {
    let rs = lex_spec(s);
    if spec_errors(rs).len() > 0 {
        Err(SpecCommandParseError::Lexer(spec_errors(rs)))
    } else {
        parse_fold(spec_init_state(), spec_oks(rs))
    }
}

// ---------------------------------------------------------------------------
// Executable parsing
// ---------------------------------------------------------------------------

/// The mathematical value of the parser's executable state.
pub open spec fn state_view(
    words: &Vec<String>,
    pending: &Option<IncompleteOperator>,
    redir: &Option<PipeRedirection>,
    awaiting: &Option<(PipeType, bool)>,
) -> SpecParserState {
    SpecParserState {
        words: words.deep_view(),
        pending: match pending {
            Some(p) => Some(p@),
            None => None,
        },
        redir: match redir {
            Some(r) => Some(r@),
            None => None,
        },
        awaiting: match awaiting {
            Some(a) => Some((a.0@, a.1)),
            None => None,
        },
    }
}

/// Closes the accumulated words, redirection and pending operator into a
/// plan, leaving all three empty.
fn close_term(
    words: &mut Vec<String>,
    redir: &mut Option<PipeRedirection>,
    pending: &mut Option<IncompleteOperator>,
) -> (r: ExecutionPlan)
    requires
        old(words)@.len() > 0,
    ensures
        plan_view(r) == spec_close_term(
            old(words).deep_view(),
            match *old(redir) {
                Some(x) => Some(x@),
                None => None,
            },
            match *old(pending) {
                Some(p) => Some(p@),
                None => None,
            },
        ),
        final(words)@.len() == 0,
        (*final(redir)) is None,
        (*final(pending)) is None,
{
    let ghost words0 = old(words).deep_view();
    let binary = words.remove(0);
    let mut args: Vec<String> = Vec::new();
    core::mem::swap(&mut args, words);
    proof {
        assert(old(words)@.remove(0) =~= old(words)@.drop_first());
        assert(args@ == old(words)@.drop_first());
        assert forall|j: int| 0 <= j < args@.len() implies args.deep_view()[j]
            == words0.drop_first()[j] by {
            assert(args@[j] == old(words)@[j + 1]);
        }
        assert(args.deep_view() =~= words0.drop_first());
        assert(binary@ == words0[0]);
        reveal_with_fuel(plan_view, 4);
    }
    let node = ExecutionPlan::Execute(binary, args);
    let mut rd: Option<PipeRedirection> = None;
    core::mem::swap(&mut rd, redir);
    let node2 = match rd {
        Some(r) => ExecutionPlan::RedirectPipe(Box::new(node), r),
        None => node,
    };
    let mut pd: Option<IncompleteOperator> = None;
    core::mem::swap(&mut pd, pending);
    match pd {
        Some(IncompleteOperator::And(l)) => ExecutionPlan::And(Box::new(l), Box::new(node2)),
        Some(IncompleteOperator::Or(l)) => ExecutionPlan::Or(Box::new(l), Box::new(node2)),
        Some(IncompleteOperator::Pipe(l)) => ExecutionPlan::Pipe(Box::new(l), Box::new(node2)),
        None => node2,
    }
}

/// Closes the pending command words into an `Execute` node and combines
/// it with the incomplete operator, leaving both empty.
pub fn complete(cmd: &mut Vec<String>, incomplete: &mut Option<IncompleteOperator>) -> (r:
    ExecutionPlan)
    requires
        old(cmd)@.len() > 0,
    ensures
        plan_view(r) == spec_close_term(
            old(cmd).deep_view(),
            None,
            match *old(incomplete) {
                Some(p) => Some(p@),
                None => None,
            },
        ),
        final(cmd)@.len() == 0,
        (*final(incomplete)) is None,
{
    let mut rd: Option<PipeRedirection> = None;
    close_term(cmd, &mut rd, incomplete)
}

/// Parses one command line into its execution plan, or reports why it has
/// none: the collected lexical errors, or the first structural fault of
/// the token stream.
pub fn parse_command(cmd: &str) -> (r: Result<ExecutionPlan, CommandParseError>)
    ensures
        match r {
            Ok(p) => parse_command_spec(cmd@) == Ok::<SpecPlan, SpecCommandParseError>(
                plan_view(p),
            ),
            Err(e) => parse_command_spec(cmd@) == Err::<SpecPlan, SpecCommandParseError>(e@),
        },
{
    let toks = lex(cmd);
    let ghost rs = results_view(toks@);
    let n = toks.len();

    // First pass: collect the lexical errors.
    let mut errs: Vec<LexerError> = Vec::new();
    let mut k: usize = 0;
    proof {
        assert(rs.subrange(0, rs.len() as int) =~= rs);
        assert(errs.deep_view() + spec_errors(rs) =~= spec_errors(rs));
    }
    while k < n
        invariant
            k <= n,
            n == toks@.len(),
            rs == results_view(toks@),
            spec_errors(rs) =~= errs.deep_view() + spec_errors(
                rs.subrange(k as int, rs.len() as int),
            ),
        decreases n - k,
    {
        let ghost k0 = k as int;
        let ghost suffix = rs.subrange(k0, rs.len() as int);
        proof {
            assert(suffix[0] == rs[k0]);
            assert(suffix.drop_first() =~= rs.subrange(k0 + 1, rs.len() as int));
            assert(rs[k0] == token_result_view(toks@[k0]));
        }
        match &toks[k] {
            Ok(_) => {},
            Err(e) => {
                let ghost errs0 = errs.deep_view();
                errs.push(e.clone());
                proof {
                    assert(errs.deep_view() =~= errs0.push(e@));
                    assert(errs0 + (seq![e@] + spec_errors(suffix.drop_first())) =~= errs0.push(e@)
                        + spec_errors(suffix.drop_first()));
                }
            },
        }
        k = k + 1;
    }
    proof {
        assert(rs.subrange(rs.len() as int, rs.len() as int) =~= Seq::empty());
        assert(errs.deep_view() + Seq::<SpecLexerError>::empty() =~= errs.deep_view());
        assert(spec_errors(rs) =~= errs.deep_view());
    }
    if errs.len() > 0 {
        return Err(CommandParseError::Lexer(errs));
    }

    // Second pass: fold the tokens through the parsing automaton.
    let mut words: Vec<String> = Vec::new();
    let mut pending: Option<IncompleteOperator> = None;
    let mut redir: Option<PipeRedirection> = None;
    let mut awaiting: Option<(PipeType, bool)> = None;
    let mut k: usize = 0;
    let ghost init = spec_init_state();
    proof {
        assert(rs.subrange(0, rs.len() as int) =~= rs);
        assert(words.deep_view() =~= Seq::<Seq<char>>::empty());
        assert(state_view(&words, &pending, &redir, &awaiting) == init);
    }
    while k < n
        invariant
            k <= n,
            n == toks@.len(),
            rs == results_view(toks@),
            rs == lex_spec(cmd@),
            spec_errors(rs).len() == 0,
            spec_errors(rs.subrange(k as int, rs.len() as int)).len() == 0,
            parse_fold(spec_init_state(), spec_oks(rs)) == parse_fold(
                state_view(&words, &pending, &redir, &awaiting),
                spec_oks(rs.subrange(k as int, rs.len() as int)),
            ),
        decreases n - k,
    {
        let ghost k0 = k as int;
        let ghost suffix = rs.subrange(k0, rs.len() as int);
        let ghost st0 = state_view(&words, &pending, &redir, &awaiting);
        proof {
            assert(suffix[0] == rs[k0]);
            assert(suffix.drop_first() =~= rs.subrange(k0 + 1, rs.len() as int));
            assert(rs[k0] == token_result_view(toks@[k0]));
        }
        match &toks[k] {
            Err(_) => {
                proof {
                    assert(spec_errors(suffix).len() > 0);
                    assert(false);
                }
                return Err(CommandParseError::UnsupportedToken);
            },
            Ok(t) => {
                let ghost tv = t@;
                proof {
                    assert(spec_oks(suffix) =~= seq![tv] + spec_oks(suffix.drop_first()));
                    assert((seq![tv] + spec_oks(suffix.drop_first())).drop_first() =~= spec_oks(
                        suffix.drop_first(),
                    ));
                    assert(spec_errors(suffix) =~= spec_errors(suffix.drop_first()));
                }
                match t {
                    Token::Comment(_) => {
                        proof {
                            assert(parse_step(st0, tv) == Ok::<
                                SpecParserState,
                                SpecCommandParseError,
                            >(st0));
                        }
                    },
                    Token::Identifier(s) | Token::DoubleQuotedString(s)
                    | Token::SingleQuotedString(s) => {
                        let w = s.clone();
                        let mut aw: Option<(PipeType, bool)> = None;
                        core::mem::swap(&mut aw, &mut awaiting);
                        match aw {
                            Some((from, app)) => {
                                redir = Some(
                                    PipeRedirection {
                                        from,
                                        to: PipeType::File(w),
                                        append: app,
                                    },
                                );
                                proof {
                                    assert(state_view(&words, &pending, &redir, &awaiting)
                                        == parse_step(st0, tv)->Ok_0);
                                }
                            },
                            None => {
                                if redir.is_some() {
                                    proof {
                                        assert(parse_step(st0, tv) == Err::<
                                            SpecParserState,
                                            SpecCommandParseError,
                                        >(SpecCommandParseError::UnexpectedToken));
                                    }
                                    return Err(CommandParseError::UnexpectedToken);
                                }
                                let ghost words0 = words.deep_view();
                                words.push(w);
                                proof {
                                    assert(w@ == word_text(tv));
                                    assert(words.deep_view() =~= words0.push(word_text(tv)));
                                    assert(state_view(&words, &pending, &redir, &awaiting)
                                        == parse_step(st0, tv)->Ok_0);
                                }
                            },
                        }
                    },
                    Token::And | Token::Or | Token::Pipe => {
                        if awaiting.is_some() {
                            return Err(CommandParseError::MissingRedirectTarget);
                        }
                        if words.len() == 0 {
                            return Err(CommandParseError::MissingCommand);
                        }
                        let closed = close_term(&mut words, &mut redir, &mut pending);
                        let newpending = match t {
                            Token::And => IncompleteOperator::And(closed),
                            Token::Or => IncompleteOperator::Or(closed),
                            _ => IncompleteOperator::Pipe(closed),
                        };
                        pending = Some(newpending);
                        proof {
                            assert(words.deep_view() =~= Seq::<Seq<char>>::empty());
                            assert(state_view(&words, &pending, &redir, &awaiting) == parse_step(
                                st0,
                                tv,
                            )->Ok_0);
                        }
                    },
                    Token::Write | Token::Append | Token::ErrWrite | Token::ErrAppend => {
                        if awaiting.is_some() {
                            return Err(CommandParseError::MissingRedirectTarget);
                        }
                        if words.len() == 0 {
                            return Err(CommandParseError::MissingCommand);
                        }
                        if redir.is_some() {
                            return Err(CommandParseError::UnexpectedToken);
                        }
                        let source = match t {
                            Token::Write | Token::Append => PipeType::Stdout,
                            _ => PipeType::Stderr,
                        };
                        let appends = match t {
                            Token::Append | Token::ErrAppend => true,
                            _ => false,
                        };
                        awaiting = Some((source, appends));
                        proof {
                            assert(state_view(&words, &pending, &redir, &awaiting) == parse_step(
                                st0,
                                tv,
                            )->Ok_0);
                        }
                    },
                    _ => {
                        return Err(CommandParseError::UnsupportedToken);
                    },
                }
            },
        }
        k = k + 1;
    }
    proof {
        assert(rs.subrange(rs.len() as int, rs.len() as int) =~= Seq::empty());
        assert(spec_oks(rs.subrange(rs.len() as int, rs.len() as int)) =~= Seq::<SpecToken>::empty());
    }
    // End of tokens: finish.
    if awaiting.is_some() {
        return Err(CommandParseError::MissingRedirectTarget);
    }
    if words.len() > 0 {
        let plan = close_term(&mut words, &mut redir, &mut pending);
        Ok(plan)
    } else if pending.is_some() {
        Err(CommandParseError::MissingCommand)
    } else if redir.is_some() {
        Err(CommandParseError::MissingCommand)
    } else {
        Ok(ExecutionPlan::NoOp)
    }
}

} // verus!
