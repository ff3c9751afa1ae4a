//! The command thread: the decisions of a task that runs one OS command
//! with piped streams for a message-driven frontend, forwarding output
//! chunks and the exit code over a channel pair.
//!
//! The surrounding binary runs the select loop over the inbound channel,
//! the two output streams and child termination, and feeds each
//! observation into `CmdTask::step`.

use vstd::prelude::*;
use crate::status::OsExitStatus;

verus! {

/// A message from the frontend to the command thread.
#[derive(Debug, PartialEq)]
pub enum CommandMessage {
    /// Bytes for the child's standard input.
    Stdin(Vec<u8>),
    /// Forcibly end the child and stop.
    Kill,
}

/// A response from the command thread to the frontend.
#[derive(Debug, PartialEq)]
pub enum CommandResponse {
    /// A chunk of the child's standard output.
    Stdout(Vec<u8>),
    /// A chunk of the child's standard error.
    Stderr(Vec<u8>),
    /// Terminal: the child exited with this code.
    ExitCode(Option<i32>),
    /// Terminal: running or awaiting the child failed.
    Error(String),
}

/// One observation of the command thread's select loop.
#[derive(Debug, PartialEq)]
pub enum CmdEvent {
    /// An inbound frontend message.
    Message(CommandMessage),
    /// A chunk read from the child's standard output.
    StdoutRead(Vec<u8>),
    /// A chunk read from the child's standard error.
    StderrRead(Vec<u8>),
    /// The child terminated: the outcome of awaiting it.
    ChildExit(Result<OsExitStatus, String>),
}

/// What the command thread must do to the child.
#[derive(Debug, PartialEq)]
pub enum CmdAction {
    /// Write these bytes to the child's standard input.
    WriteStdin(Vec<u8>),
    /// Ask the OS to kill the child.
    KillChild,
}

/// The command thread's state: whether its loop has ended.
#[derive(Debug, PartialEq)]
pub struct CmdTask {
    pub done: bool,
}

impl CmdTask {
    /// A fresh task supervising one just-spawned command.
    pub fn new() -> (t: CmdTask)
        ensures
            !t.done,
    {
        CmdTask { done: false }
    }

    /// Reacts to one observation: at most one response to forward, at
    /// most one action on the child. Zero-length chunks are suppressed;
    /// a kill request and child termination end the loop.
    pub fn step(&mut self, ev: CmdEvent) -> (r: (Option<CommandResponse>, Option<CmdAction>))
        ensures
            old(self).done ==> final(self).done && r.0 is None && r.1 is None,
            !old(self).done ==> match ev {
                CmdEvent::Message(CommandMessage::Stdin(d)) => !final(self).done && r.0 is None
                    && r.1 == Some(CmdAction::WriteStdin(d)),
                CmdEvent::Message(CommandMessage::Kill) => final(self).done && r.0 is None && r.1
                    == Some(CmdAction::KillChild),
                CmdEvent::StdoutRead(d) => !final(self).done && r.1 is None && (if d@.len() > 0 {
                    r.0 == Some(CommandResponse::Stdout(d))
                } else {
                    r.0 is None
                }),
                CmdEvent::StderrRead(d) => !final(self).done && r.1 is None && (if d@.len() > 0 {
                    r.0 == Some(CommandResponse::Stderr(d))
                } else {
                    r.0 is None
                }),
                CmdEvent::ChildExit(outcome) => final(self).done && r.1 is None && match outcome {
                    Ok(s) => r.0 == Some(CommandResponse::ExitCode(s.code)),
                    Err(e) => r.0 == Some(CommandResponse::Error(e)),
                },
            },
    {
        if self.done {
            return (None, None);
        }
        match ev {
            CmdEvent::Message(CommandMessage::Stdin(d)) => (None, Some(CmdAction::WriteStdin(d))),
            CmdEvent::Message(CommandMessage::Kill) => {
                self.done = true;
                (None, Some(CmdAction::KillChild))
            },
            CmdEvent::StdoutRead(d) => {
                if d.len() > 0 {
                    (Some(CommandResponse::Stdout(d)), None)
                } else {
                    (None, None)
                }
            },
            CmdEvent::StderrRead(d) => {
                if d.len() > 0 {
                    (Some(CommandResponse::Stderr(d)), None)
                } else {
                    (None, None)
                }
            },
            CmdEvent::ChildExit(outcome) => {
                self.done = true;
                match outcome {
                    Ok(s) => (Some(CommandResponse::ExitCode(s.code)), None),
                    Err(e) => (Some(CommandResponse::Error(e)), None),
                }
            },
        }
    }
}

} // verus!
