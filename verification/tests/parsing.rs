use vash::parser::{complete, parse_command, CommandParseError, IncompleteOperator};
use vash::plan::{ExecutionPlan, PipeRedirection, PipeType};
use vash::token::LexerError;

fn ex(name: &str, args: &[&str]) -> ExecutionPlan {
    ExecutionPlan::Execute(
        String::from(name),
        args.iter().map(|a| String::from(*a)).collect(),
    )
}

#[test]
fn parse_pipe() {
    assert_eq!(
        parse_command("ls -l | grep foo"),
        Ok(ExecutionPlan::Pipe(
            Box::new(ex("ls", &["-l"])),
            Box::new(ex("grep", &["foo"])),
        ))
    );
}

#[test]
fn parse_empty_is_noop() {
    assert_eq!(parse_command(""), Ok(ExecutionPlan::NoOp));
    assert_eq!(parse_command("   "), Ok(ExecutionPlan::NoOp));
}

#[test]
fn parse_comment_only_is_noop() {
    assert_eq!(parse_command("# nothing here"), Ok(ExecutionPlan::NoOp));
}

#[test]
fn parse_left_fold_without_precedence() {
    assert_eq!(
        parse_command("a && b || c"),
        Ok(ExecutionPlan::Or(
            Box::new(ExecutionPlan::And(
                Box::new(ex("a", &[])),
                Box::new(ex("b", &[])),
            )),
            Box::new(ex("c", &[])),
        ))
    );
}

#[test]
fn parse_pipe_binds_like_and() {
    assert_eq!(
        parse_command("a | b && c"),
        Ok(ExecutionPlan::And(
            Box::new(ExecutionPlan::Pipe(
                Box::new(ex("a", &[])),
                Box::new(ex("b", &[])),
            )),
            Box::new(ex("c", &[])),
        ))
    );
}

#[test]
fn parse_quoted_words_join_command() {
    assert_eq!(
        parse_command("echo \"a b\" 'c d'"),
        Ok(ex("echo", &["a b", "c d"]))
    );
}

#[test]
fn parse_lexer_errors_aggregate() {
    match parse_command("% ls %") {
        Err(CommandParseError::Lexer(errs)) => {
            assert_eq!(errs, vec![LexerError::UnknownToken, LexerError::UnknownToken]);
        },
        other => panic!("expected aggregated lexer errors, got {:?}", other),
    }
}

#[test]
fn parse_redirect_stdout() {
    assert_eq!(
        parse_command("ls > out.txt"),
        Ok(ExecutionPlan::RedirectPipe(
            Box::new(ex("ls", &[])),
            PipeRedirection {
                from: PipeType::Stdout,
                to: PipeType::File(String::from("out.txt")),
                append: false,
            },
        ))
    );
}

#[test]
fn parse_redirect_append_stderr() {
    assert_eq!(
        parse_command("make 2>> log"),
        Ok(ExecutionPlan::RedirectPipe(
            Box::new(ex("make", &[])),
            PipeRedirection {
                from: PipeType::Stderr,
                to: PipeType::File(String::from("log")),
                append: true,
            },
        ))
    );
}

#[test]
fn parse_redirect_binds_to_its_command() {
    assert_eq!(
        parse_command("a > f && b"),
        Ok(ExecutionPlan::And(
            Box::new(ExecutionPlan::RedirectPipe(
                Box::new(ex("a", &[])),
                PipeRedirection {
                    from: PipeType::Stdout,
                    to: PipeType::File(String::from("f")),
                    append: false,
                },
            )),
            Box::new(ex("b", &[])),
        ))
    );
}

#[test]
fn parse_operator_without_command_fails() {
    assert_eq!(parse_command("&& b"), Err(CommandParseError::MissingCommand));
    assert_eq!(parse_command("a &&"), Err(CommandParseError::MissingCommand));
    assert_eq!(parse_command("a && && b"), Err(CommandParseError::MissingCommand));
}

#[test]
fn parse_redirect_without_target_fails() {
    assert_eq!(parse_command("a >"), Err(CommandParseError::MissingRedirectTarget));
    assert_eq!(parse_command("a > && b"), Err(CommandParseError::MissingRedirectTarget));
}

#[test]
fn parse_word_after_redirect_target_fails() {
    assert_eq!(parse_command("a > f g"), Err(CommandParseError::UnexpectedToken));
}

#[test]
fn parse_second_redirect_fails() {
    assert_eq!(parse_command("a > f > g"), Err(CommandParseError::UnexpectedToken));
}

#[test]
fn parse_reserved_word_unsupported() {
    assert_eq!(parse_command("if true"), Err(CommandParseError::UnsupportedToken));
    assert_eq!(parse_command("a ; b"), Err(CommandParseError::UnsupportedToken));
    assert_eq!(parse_command("a < f"), Err(CommandParseError::UnsupportedToken));
}

#[test]
fn complete_closes_buffer_into_execute() {
    let mut words = vec![String::from("ls"), String::from("-l")];
    let mut pending: Option<IncompleteOperator> = None;
    let plan = complete(&mut words, &mut pending);
    assert_eq!(plan, ex("ls", &["-l"]));
    assert!(words.is_empty());
    assert!(pending.is_none());
}

#[test]
fn complete_combines_pending_operator() {
    let mut words = vec![String::from("b")];
    let mut pending = Some(IncompleteOperator::And(ex("a", &[])));
    let plan = complete(&mut words, &mut pending);
    assert_eq!(
        plan,
        ExecutionPlan::And(Box::new(ex("a", &[])), Box::new(ex("b", &[])))
    );
    assert!(pending.is_none());
}
