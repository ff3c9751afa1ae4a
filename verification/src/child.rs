//! The child handle: a closed, exhaustively matched variant over the
//! origins a process can have, with the decisions behind its uniform
//! `wait` / `kill` / `signal` operations.
//!
//! The handle itself holds plain table indices; the surrounding binary
//! owns the OS children, tasks and channels those indices name, asks the
//! decision functions here what to do, and performs the OS action.

use vstd::prelude::*;
use crate::status::{BuiltinExitStatus, OsExitStatus, VashExitStatus};

verus! {

/// A signal by name. The surrounding binary maps each to the OS signal of
/// the same name.
#[derive(Debug, Clone, Copy, PartialEq, Eq, Structural)]
pub enum SignalName {
    Interrupt,
    Terminate,
    Abort,
    Kill,
    Quit,
    Hangup,
}

/// A command to the background task that owns one OS child.
#[derive(Debug, Clone, Copy, PartialEq, Eq, Structural)]
pub enum ChildCommand {
    Signal(SignalName),
    Kill,
}

/// What the background task owning one OS child reports back.
#[derive(Debug, Clone, Copy, PartialEq)]
pub enum ChildMessage {
    Exit(OsExitStatus),
}

/// The channel pair bound to the background task that owns one OS child,
/// by the supervisor's channel table indices.
#[derive(Debug, Clone, Copy, PartialEq, Eq, Structural)]
pub struct ChildDelegate {
    pub sender: usize,
    pub receiver: usize,
}

/// A uniform handle over the origins a process can have.
#[derive(Debug, Clone, Copy, PartialEq)]
pub enum VashChild {
    /// A spawned OS child, by process table index.
    Process(usize),
    /// An OS child owned by a background task, reached over channels.
    Delegate(ChildDelegate),
    /// A precomputed result: already terminated, never touches the OS.
    PreExecuted(BuiltinExitStatus),
    /// A synthetic in-process task, by task table index.
    Thread(usize),
}

/// What the supervisor must do to carry out one child operation.
#[derive(Debug, Clone, Copy, PartialEq)]
pub enum ChildOpAction {
    /// Ask the OS to kill the child with the given table index.
    KillOs(usize),
    /// Send the command to the owning task's channel.
    SendCommand(usize, ChildCommand),
    /// Forward the signal to the OS child with the given table index.
    ForwardSignal(usize, SignalName),
    /// Abort the synthetic task with the given table index.
    AbortTask(usize),
    /// Do nothing; the operation already succeeded.
    NoAction,
}

/// The signals a synthetic task honors: it has no signal handler, so only
/// interrupt, terminate and abort act on it, by aborting the task.
pub open spec fn spec_signal_aborts_task(sig: SignalName) -> bool {
    sig == SignalName::Interrupt || sig == SignalName::Terminate || sig == SignalName::Abort
}

impl VashChild {
    /// Decides how to forcibly terminate this child. A precomputed child
    /// needs no OS action at all, and the operation succeeds.
    pub fn kill_action(&self) -> (a: ChildOpAction)
        ensures
            match self {
                VashChild::Process(id) => a == ChildOpAction::KillOs(*id),
                VashChild::Delegate(d) => a == ChildOpAction::SendCommand(
                    d.sender,
                    ChildCommand::Kill,
                ),
                VashChild::PreExecuted(_) => a == ChildOpAction::NoAction,
                VashChild::Thread(id) => a == ChildOpAction::AbortTask(*id),
            },
    {
        match self {
            VashChild::Process(id) => ChildOpAction::KillOs(*id),
            VashChild::Delegate(d) => ChildOpAction::SendCommand(d.sender, ChildCommand::Kill),
            VashChild::PreExecuted(_) => ChildOpAction::NoAction,
            VashChild::Thread(id) => ChildOpAction::AbortTask(*id),
        }
    }

    /// Decides how to deliver a named signal to this child. A precomputed
    /// child ignores every signal; a synthetic task honors only the
    /// signals that abort it and silently ignores the rest.
    pub fn signal_action(&self, sig: SignalName) -> (a: ChildOpAction)
        ensures
            match self {
                VashChild::Process(id) => a == ChildOpAction::ForwardSignal(*id, sig),
                VashChild::Delegate(d) => a == ChildOpAction::SendCommand(
                    d.sender,
                    ChildCommand::Signal(sig),
                ),
                VashChild::PreExecuted(_) => a == ChildOpAction::NoAction,
                VashChild::Thread(id) => {
                    if spec_signal_aborts_task(sig) {
                        a == ChildOpAction::AbortTask(*id)
                    } else {
                        a == ChildOpAction::NoAction
                    }
                },
            },
    {
        match self {
            VashChild::Process(id) => ChildOpAction::ForwardSignal(*id, sig),
            VashChild::Delegate(d) => ChildOpAction::SendCommand(
                d.sender,
                ChildCommand::Signal(sig),
            ),
            VashChild::PreExecuted(_) => ChildOpAction::NoAction,
            VashChild::Thread(id) => {
                match sig {
                    SignalName::Interrupt | SignalName::Terminate | SignalName::Abort => {
                        ChildOpAction::AbortTask(*id)
                    },
                    _ => ChildOpAction::NoAction,
                }
            },
        }
    }

    /// The terminal status of a child that never ran anything: exactly the
    /// status it was built with, with no waiting and no OS action.
    pub fn precomputed_status(&self) -> (r: Option<VashExitStatus>)
        ensures
            match self {
                VashChild::PreExecuted(s) => r == Some(VashExitStatus::Builtin(*s)),
                _ => r is None,
            },
    {
        match self {
            VashChild::PreExecuted(s) => Some(VashExitStatus::Builtin(*s)),
            _ => None,
        }
    }
}

/// What awaiting the owning task's next report yields: the child's exit
/// status when one arrives, or a broken-pipe condition when the channel
/// closed without one.
pub fn delegate_wait_outcome(msg: Option<ChildMessage>) -> (r: Result<OsExitStatus, ()>)
    ensures
        match msg {
            Some(ChildMessage::Exit(s)) => r == Ok::<OsExitStatus, ()>(s),
            None => r is Err,
        },
{
    match msg {
        Some(ChildMessage::Exit(s)) => Ok(s),
        None => Err(()),
    }
}

} // verus!
