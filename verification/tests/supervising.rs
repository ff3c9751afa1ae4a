use vash::bytepipe::BytePipe;
use vash::cmdthread::{CmdAction, CmdEvent, CmdTask, CommandMessage, CommandResponse};
use vash::delegate::{
    DelegateAction, DelegateCommand, DelegateEvent, DelegateMessage, DelegateTask,
};
use vash::child::SignalName;
use vash::process::{delegate_read_poll, write_chunk_message, write_poll_outcome, ChannelRecv, ReadMessage, ReadPoll, ReadSink, WriteMessage, WritePoll};
use vash::state::{count_lines, Direction, State};
use vash::status::{BuiltinExitStatus, OsExitStatus, VashExitStatus};

#[test]
fn delegate_streams_output_then_exactly_one_exit() {
    let mut t = DelegateTask::new();
    let mut collected: Vec<u8> = Vec::new();
    let (msgs, act) = t.step(DelegateEvent::StdoutChunk(b"h".to_vec()));
    assert!(act.is_none());
    for m in msgs {
        match m {
            DelegateMessage::Stdout(d) => collected.extend(d),
            other => panic!("unexpected message {:?}", other),
        }
    }
    let (msgs, _) = t.step(DelegateEvent::StdoutChunk(b"i".to_vec()));
    for m in msgs {
        match m {
            DelegateMessage::Stdout(d) => collected.extend(d),
            other => panic!("unexpected message {:?}", other),
        }
    }
    assert_eq!(collected, b"hi".to_vec());
    let status = VashExitStatus::Builtin(BuiltinExitStatus::new_success());
    let (msgs, act) = t.step(DelegateEvent::ChildDone(Ok(status), vec![], vec![]));
    assert!(act.is_none());
    assert_eq!(msgs, vec![DelegateMessage::Exit(Some(0))]);
    // Nothing follows the terminal message, whatever else happens.
    let (msgs, act) = t.step(DelegateEvent::StdoutChunk(b"late".to_vec()));
    assert!(msgs.is_empty());
    assert!(act.is_none());
    let (msgs, _) = t.step(DelegateEvent::ChildDone(Ok(status), vec![], vec![]));
    assert!(msgs.is_empty());
}

#[test]
fn delegate_suppresses_empty_chunks() {
    let mut t = DelegateTask::new();
    let (msgs, act) = t.step(DelegateEvent::StdoutChunk(vec![]));
    assert!(msgs.is_empty());
    assert!(act.is_none());
    let (msgs, _) = t.step(DelegateEvent::StderrChunk(vec![]));
    assert!(msgs.is_empty());
}

#[test]
fn delegate_drains_remains_before_terminal() {
    let mut t = DelegateTask::new();
    let status = VashExitStatus::Process(OsExitStatus { code: Some(2) });
    let (msgs, _) = t.step(DelegateEvent::ChildDone(
        Ok(status),
        b"tail-out".to_vec(),
        b"tail-err".to_vec(),
    ));
    assert_eq!(
        msgs,
        vec![
            DelegateMessage::Stdout(b"tail-out".to_vec()),
            DelegateMessage::Stderr(b"tail-err".to_vec()),
            DelegateMessage::Exit(Some(2)),
        ]
    );
}

#[test]
fn delegate_wait_failure_is_error_message() {
    let mut t = DelegateTask::new();
    let (msgs, _) = t.step(DelegateEvent::ChildDone(
        Err(String::from("broken pipe")),
        vec![],
        vec![],
    ));
    assert_eq!(msgs, vec![DelegateMessage::Error(String::from("broken pipe"))]);
}

#[test]
fn delegate_commands_become_actions() {
    let mut t = DelegateTask::new();
    let (msgs, act) = t.step(DelegateEvent::Command(DelegateCommand::Stdin(b"in\n".to_vec())));
    assert!(msgs.is_empty());
    assert_eq!(act, Some(DelegateAction::WriteStdin(b"in\n".to_vec())));
    let (_, act) = t.step(DelegateEvent::Command(DelegateCommand::Signal(SignalName::Terminate)));
    assert_eq!(act, Some(DelegateAction::SignalChild(SignalName::Terminate)));
}

#[test]
fn cmd_thread_forwards_and_stops() {
    let mut t = CmdTask::new();
    let (resp, act) = t.step(CmdEvent::Message(CommandMessage::Stdin(b"x".to_vec())));
    assert!(resp.is_none());
    assert_eq!(act, Some(CmdAction::WriteStdin(b"x".to_vec())));
    let (resp, act) = t.step(CmdEvent::StdoutRead(b"out".to_vec()));
    assert_eq!(resp, Some(CommandResponse::Stdout(b"out".to_vec())));
    assert!(act.is_none());
    let (resp, _) = t.step(CmdEvent::StdoutRead(vec![]));
    assert!(resp.is_none());
    let (resp, _) = t.step(CmdEvent::ChildExit(Ok(OsExitStatus { code: Some(0) })));
    assert_eq!(resp, Some(CommandResponse::ExitCode(Some(0))));
    let (resp, act) = t.step(CmdEvent::StdoutRead(b"late".to_vec()));
    assert!(resp.is_none());
    assert!(act.is_none());
}

#[test]
fn cmd_thread_kill_ends_loop() {
    let mut t = CmdTask::new();
    let (resp, act) = t.step(CmdEvent::Message(CommandMessage::Kill));
    assert!(resp.is_none());
    assert_eq!(act, Some(CmdAction::KillChild));
    let (resp, act) = t.step(CmdEvent::StderrRead(b"x".to_vec()));
    assert!(resp.is_none());
    assert!(act.is_none());
}

#[test]
fn cmd_thread_reports_wait_failure() {
    let mut t = CmdTask::new();
    let (resp, _) = t.step(CmdEvent::ChildExit(Err(String::from("gone"))));
    assert_eq!(resp, Some(CommandResponse::Error(String::from("gone"))));
}

#[test]
fn byte_pipe_keeps_order_and_bound() {
    let mut p = BytePipe::new(4);
    assert_eq!(p.write(&b"abc".to_vec()), 3);
    // Only one byte of room is left.
    assert_eq!(p.write(&b"defg".to_vec()), 1);
    assert_eq!(p.buffered(), 4);
    assert_eq!(p.free_space(), 0);
    let first = p.read(2);
    assert_eq!(first, b"ab".to_vec());
    let rest = p.read(10);
    assert_eq!(rest, b"cd".to_vec());
    assert_eq!(p.buffered(), 0);
}

#[test]
fn byte_pipe_close_gives_end_of_stream() {
    let mut p = BytePipe::new(8);
    assert_eq!(p.write(&b"hi".to_vec()), 2);
    p.close();
    assert_eq!(p.write(&b"more".to_vec()), 0);
    assert!(!p.is_exhausted());
    assert_eq!(p.read(8), b"hi".to_vec());
    assert!(p.is_exhausted());
    assert_eq!(p.read(8), Vec::<u8>::new());
}

#[test]
fn read_poll_decisions() {
    assert_eq!(
        delegate_read_poll(ChannelRecv::Msg(ReadMessage::Read(b"data".to_vec()))),
        ReadPoll::Ready(b"data".to_vec())
    );
    assert_eq!(delegate_read_poll(ChannelRecv::Msg(ReadMessage::Closed)), ReadPoll::Ready(vec![]));
    assert_eq!(delegate_read_poll(ChannelRecv::Empty), ReadPoll::Pending);
    assert_eq!(delegate_read_poll(ChannelRecv::Disconnected), ReadPoll::Ready(vec![]));
    assert_eq!(ReadSink.poll(), ReadPoll::Ready(vec![]));
}

#[test]
fn write_poll_decisions() {
    let msg = write_chunk_message(&b"abc".to_vec());
    assert_eq!(msg, WriteMessage::Write(b"abc".to_vec()));
    assert_eq!(write_poll_outcome(3, true), WritePoll::Accepted(3));
    assert_eq!(write_poll_outcome(3, false), WritePoll::BrokenPipe);
}

#[test]
fn state_edits_input_line() {
    let mut s = State::new(String::from("vash> "));
    s.push_char('l');
    s.push_char('s');
    assert_eq!(s.input, "ls");
    s.pop_char();
    assert_eq!(s.input, "l");
    s.pop_char();
    s.pop_char();
    assert_eq!(s.input, "");
}

#[test]
fn state_history_recall() {
    let mut s = State::new(String::from("> "));
    s.push_char('a');
    s.push_history();
    assert_eq!(s.history, vec![String::from("a")]);
    assert_eq!(s.input, "");
    s.push_char('b');
    s.push_history();
    assert_eq!(s.history, vec![String::from("a"), String::from("b")]);
    // Up recalls the newest entry first, then older ones.
    s.mutate_history_pos(Direction::Up);
    assert_eq!(s.input, "b");
    s.mutate_history_pos(Direction::Up);
    assert_eq!(s.input, "a");
    // Down walks back toward the newest, then clears the line.
    s.mutate_history_pos(Direction::Down);
    assert_eq!(s.input, "a");
    s.mutate_history_pos(Direction::Down);
    assert_eq!(s.input, "");
}

#[test]
fn state_history_skips_repeated_entry() {
    let mut s = State::new(String::from("> "));
    s.push_char('a');
    s.push_history();
    s.push_char('a');
    s.push_history();
    // The repeated line is not filed again, and stays in the input.
    assert_eq!(s.history, vec![String::from("a")]);
    assert_eq!(s.input, "a");
}

#[test]
fn state_applies_stream_chunks() {
    let mut s = State::new(String::from("> "));
    assert!(s.apply_message(DelegateMessage::Stdout(b"hi ".to_vec())));
    assert!(s.apply_message(DelegateMessage::Stderr(b"there".to_vec())));
    assert_eq!(s.output, "hi there");
}

#[test]
fn state_applies_terminal_messages() {
    let mut s = State::new(String::from("> "));
    assert!(!s.apply_message(DelegateMessage::Exit(Some(0))));
    assert!(!s.apply_message(DelegateMessage::Exit(Some(-17))));
    assert!(!s.apply_message(DelegateMessage::Exit(None)));
    assert!(!s.apply_message(DelegateMessage::Error(String::from("oops"))));
    assert_eq!(s.output, "exit: 0\nexit: -17\nexit: none\nerror: oops\n");
}

#[test]
fn line_counting_matches_screen_lines() {
    assert_eq!(count_lines(""), 0);
    assert_eq!(count_lines("a"), 1);
    assert_eq!(count_lines("a\n"), 1);
    assert_eq!(count_lines("a\nb"), 2);
    assert_eq!(count_lines("a\nb\n"), 2);
    assert_eq!(count_lines("\n\n"), 2);
}

#[test]
fn state_scrolls_within_output() {
    let mut s = State::new(String::from("> "));
    assert!(s.apply_message(DelegateMessage::Stdout(b"1\n2\n3\n4\n5\n6\n7\n8\n".to_vec())));
    // Eight lines, six fit below the prompt rows: two lines of slack.
    s.mutate_scroll_pos(Direction::Up, 8);
    assert_eq!(s.scroll_y, 1);
    assert_eq!(s.scrolled_when_len, Some(8));
    s.mutate_scroll_pos(Direction::Up, 8);
    assert_eq!(s.scroll_y, 2);
    s.mutate_scroll_pos(Direction::Up, 8);
    assert_eq!(s.scroll_y, 2);
    s.mutate_scroll_pos(Direction::Down, 8);
    assert_eq!(s.scroll_y, 1);
    assert_eq!(s.scrolled_when_len, Some(8));
    s.mutate_scroll_pos(Direction::Down, 8);
    assert_eq!(s.scroll_y, 0);
    assert_eq!(s.scrolled_when_len, None);
    s.mutate_scroll_pos(Direction::Down, 8);
    assert_eq!(s.scroll_y, 0);
}
