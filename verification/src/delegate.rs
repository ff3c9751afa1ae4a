//! The execution delegate: the decisions of the background task that
//! supervises one live process for the interactive frontend.
//!
//! The surrounding binary runs the one concurrent select loop over the
//! four sources — an inbound command, a readable stdout chunk, a readable
//! stderr chunk, and child termination — and feeds each observation into
//! `DelegateTask::step`, which decides what to forward to the frontend
//! and what to do to the process. Once the child terminates the task
//! emits the drained remains of both streams and exactly one terminal
//! message, and nothing after it.

use vstd::prelude::*;
use crate::child::SignalName;
use crate::status::VashExitStatus;

verus! {

// ---------------------------------------------------------------------------
// Messages and commands
// ---------------------------------------------------------------------------

/// A message to the frontend, over mathematical values.
pub enum SpecDelegateMessage {
    Stdout(Seq<u8>),
    Stderr(Seq<u8>),
    Exit(Option<i32>),
    Error(Seq<char>),
}

/// A message from the supervising task to the interactive frontend.
#[derive(Debug, PartialEq)]
pub enum DelegateMessage {
    /// A chunk of the process's standard output.
    Stdout(Vec<u8>),
    /// A chunk of the process's standard error.
    Stderr(Vec<u8>),
    /// Terminal: the process exited with this code.
    Exit(Option<i32>),
    /// Terminal: awaiting the child failed.
    Error(String),
}

impl View for DelegateMessage {
    type V = SpecDelegateMessage;

    open spec fn view(&self) -> SpecDelegateMessage {
        match self {
            DelegateMessage::Stdout(d) => SpecDelegateMessage::Stdout(d@),
            DelegateMessage::Stderr(d) => SpecDelegateMessage::Stderr(d@),
            DelegateMessage::Exit(c) => SpecDelegateMessage::Exit(*c),
            DelegateMessage::Error(e) => SpecDelegateMessage::Error(e@),
        }
    }
}

impl DeepView for DelegateMessage {
    type V = SpecDelegateMessage;

    open spec fn deep_view(&self) -> SpecDelegateMessage {
        self.view()
    }
}

/// A command from the frontend, over mathematical values.
pub enum SpecDelegateCommand {
    Stdin(Seq<u8>),
    Signal(SignalName),
}

/// A command from the interactive frontend to the supervising task.
#[derive(Debug, PartialEq)]
pub enum DelegateCommand {
    /// Bytes for the process's standard input.
    Stdin(Vec<u8>),
    /// A signal for the process.
    Signal(SignalName),
}

impl View for DelegateCommand {
    type V = SpecDelegateCommand;

    open spec fn view(&self) -> SpecDelegateCommand {
        match self {
            DelegateCommand::Stdin(d) => SpecDelegateCommand::Stdin(d@),
            DelegateCommand::Signal(s) => SpecDelegateCommand::Signal(*s),
        }
    }
}

// ---------------------------------------------------------------------------
// Events and actions
// ---------------------------------------------------------------------------

/// One observation of the select loop, over mathematical values.
pub enum SpecDelegateEvent {
    Command(SpecDelegateCommand),
    StdoutChunk(Seq<u8>),
    StderrChunk(Seq<u8>),
    ChildDone(Result<VashExitStatus, Seq<char>>, Seq<u8>, Seq<u8>),
}

/// One observation of the select loop.
#[derive(Debug, PartialEq)]
pub enum DelegateEvent {
    /// An inbound frontend command.
    Command(DelegateCommand),
    /// A chunk read from the process's standard output.
    StdoutChunk(Vec<u8>),
    /// A chunk read from the process's standard error.
    StderrChunk(Vec<u8>),
    /// The child terminated: the outcome of awaiting it, and whatever
    /// remained in its standard output and error, drained to end of
    /// stream.
    ChildDone(Result<VashExitStatus, String>, Vec<u8>, Vec<u8>),
}

impl View for DelegateEvent {
    type V = SpecDelegateEvent;

    open spec fn view(&self) -> SpecDelegateEvent {
        match self {
            DelegateEvent::Command(c) => SpecDelegateEvent::Command(c@),
            DelegateEvent::StdoutChunk(d) => SpecDelegateEvent::StdoutChunk(d@),
            DelegateEvent::StderrChunk(d) => SpecDelegateEvent::StderrChunk(d@),
            DelegateEvent::ChildDone(outcome, ro, re) => SpecDelegateEvent::ChildDone(
                match outcome {
                    Ok(s) => Ok(*s),
                    Err(e) => Err(e@),
                },
                ro@,
                re@,
            ),
        }
    }
}

/// What the task must do to the process, over mathematical values.
pub enum SpecDelegateAction {
    WriteStdin(Seq<u8>),
    SignalChild(SignalName),
}

/// What the task must do to the process: write and flush bytes to its
/// standard input, or deliver a signal to its child.
#[derive(Debug, PartialEq)]
pub enum DelegateAction {
    WriteStdin(Vec<u8>),
    SignalChild(SignalName),
}

pub open spec fn action_view(a: Option<DelegateAction>) -> Option<SpecDelegateAction> {
    match a {
        Some(DelegateAction::WriteStdin(d)) => Some(SpecDelegateAction::WriteStdin(d@)),
        Some(DelegateAction::SignalChild(s)) => Some(SpecDelegateAction::SignalChild(s)),
        None => None,
    }
}

// ---------------------------------------------------------------------------
// The task's one decision
// ---------------------------------------------------------------------------

/// What one observation makes the task do: the messages to emit, the
/// action to perform, and whether the task is finished.
pub open spec fn spec_delegate_step(done: bool, ev: SpecDelegateEvent) -> (
    bool,
    Seq<SpecDelegateMessage>,
    Option<SpecDelegateAction>,
) {
    if done {
        (true, Seq::empty(), None)
    } else {
        match ev {
            SpecDelegateEvent::Command(SpecDelegateCommand::Stdin(d)) => (
                false,
                Seq::empty(),
                Some(SpecDelegateAction::WriteStdin(d)),
            ),
            SpecDelegateEvent::Command(SpecDelegateCommand::Signal(s)) => (
                false,
                Seq::empty(),
                Some(SpecDelegateAction::SignalChild(s)),
            ),
            SpecDelegateEvent::StdoutChunk(d) => (
                false,
                if d.len() > 0 {
                    seq![SpecDelegateMessage::Stdout(d)]
                } else {
                    Seq::empty()
                },
                None,
            ),
            SpecDelegateEvent::StderrChunk(d) => (
                false,
                if d.len() > 0 {
                    seq![SpecDelegateMessage::Stderr(d)]
                } else {
                    Seq::empty()
                },
                None,
            ),
            SpecDelegateEvent::ChildDone(outcome, ro, re) => {
                let drained = (if ro.len() > 0 {
                    seq![SpecDelegateMessage::Stdout(ro)]
                } else {
                    Seq::empty()
                }) + (if re.len() > 0 {
                    seq![SpecDelegateMessage::Stderr(re)]
                } else {
                    Seq::empty()
                });
                let terminal = match outcome {
                    Ok(s) => SpecDelegateMessage::Exit(s.spec_code()),
                    Err(e) => SpecDelegateMessage::Error(e),
                };
                (true, drained.push(terminal), None)
            },
        }
    }
}

/// The supervising task's state: whether its terminal message is out.
#[derive(Debug, PartialEq)]
pub struct DelegateTask {
    pub done: bool,
}

impl DelegateTask {
    /// A fresh task supervising a live process.
    pub fn new() -> (t: DelegateTask)
        ensures
            !t.done,
    {
        DelegateTask { done: false }
    }

    /// Reacts to one observation of the select loop.
    pub fn step(&mut self, ev: DelegateEvent) -> (r: (Vec<DelegateMessage>, Option<DelegateAction>))
        ensures
            ({
                let (d2, msgs, act) = spec_delegate_step(old(self).done, ev@);
                final(self).done == d2 && r.0.deep_view() == msgs && action_view(r.1) == act
            }),
            old(self).done ==> final(self).done,
    {
        let ghost evv = ev@;
        let mut out: Vec<DelegateMessage> = Vec::new();
        proof {
            assert(out.deep_view() =~= Seq::<SpecDelegateMessage>::empty());
        }
        if self.done {
            return (out, None);
        }
        match ev {
            DelegateEvent::Command(DelegateCommand::Stdin(d)) => {
                (out, Some(DelegateAction::WriteStdin(d)))
            },
            DelegateEvent::Command(DelegateCommand::Signal(s)) => {
                (out, Some(DelegateAction::SignalChild(s)))
            },
            DelegateEvent::StdoutChunk(d) => {
                if d.len() > 0 {
                    let ghost dv = d@;
                    out.push(DelegateMessage::Stdout(d));
                    proof {
                        assert(out.deep_view() =~= seq![SpecDelegateMessage::Stdout(dv)]);
                    }
                }
                (out, None)
            },
            DelegateEvent::StderrChunk(d) => {
                if d.len() > 0 {
                    let ghost dv = d@;
                    out.push(DelegateMessage::Stderr(d));
                    proof {
                        assert(out.deep_view() =~= seq![SpecDelegateMessage::Stderr(dv)]);
                    }
                }
                (out, None)
            },
            DelegateEvent::ChildDone(outcome, ro, re) => {
                let ghost rov = ro@;
                let ghost rev = re@;
                if ro.len() > 0 {
                    out.push(DelegateMessage::Stdout(ro));
                }
                if re.len() > 0 {
                    out.push(DelegateMessage::Stderr(re));
                }
                let ghost drained = out.deep_view();
                match outcome {
                    Ok(s) => {
                        let code = s.code();
                        out.push(DelegateMessage::Exit(code));
                    },
                    Err(e) => {
                        out.push(DelegateMessage::Error(e));
                    },
                }
                self.done = true;
                proof {
                    let (d2, msgs, act) = spec_delegate_step(false, evv);
                    assert(drained =~= (if rov.len() > 0 {
                        seq![SpecDelegateMessage::Stdout(rov)]
                    } else {
                        Seq::<SpecDelegateMessage>::empty()
                    }) + (if rev.len() > 0 {
                        seq![SpecDelegateMessage::Stderr(rev)]
                    } else {
                        Seq::<SpecDelegateMessage>::empty()
                    }));
                    assert(out.deep_view() =~= msgs);
                }
                (out, None)
            },
        }
    }
}

// ---------------------------------------------------------------------------
// The message stream's shape
// ---------------------------------------------------------------------------

/// A terminal message: `Exit` or `Error`.
pub open spec fn is_terminal_message(m: SpecDelegateMessage) -> bool {
    m is Exit || m is Error
}

/// Every message the task emits over a whole sequence of observations.
pub open spec fn spec_delegate_run(done: bool, evs: Seq<SpecDelegateEvent>) -> Seq<
    SpecDelegateMessage,
>
    decreases evs.len(),
{
    if evs.len() == 0 {
        Seq::empty()
    } else {
        let (d2, msgs, _act) = spec_delegate_step(done, evs[0]);
        msgs + spec_delegate_run(d2, evs.drop_first())
    }
}

/// A terminal message can only stand last.
pub open spec fn terminal_only_last(ms: Seq<SpecDelegateMessage>) -> bool {
    forall|i: int|
        0 <= i < ms.len() && is_terminal_message(#[trigger] ms[i]) ==> i == ms.len() - 1
}

proof fn lemma_run_after_done(evs: Seq<SpecDelegateEvent>)
    ensures
        spec_delegate_run(true, evs) =~= Seq::<SpecDelegateMessage>::empty(),
    decreases evs.len(),
{
    if evs.len() > 0 {
        lemma_run_after_done(evs.drop_first());
        assert(spec_delegate_run(true, evs) =~= Seq::<SpecDelegateMessage>::empty()
            + spec_delegate_run(true, evs.drop_first()));
    }
}

/// Whatever the frontend sends and whatever the streams yield, the
/// message stream a delegate task produces contains at most one terminal
/// message, and no message follows it.
pub proof fn lemma_delegate_single_terminal(evs: Seq<SpecDelegateEvent>)
    ensures
        terminal_only_last(spec_delegate_run(false, evs)),
    decreases evs.len(),
{
    if evs.len() == 0 {
    } else {
        let (d2, msgs, _act) = spec_delegate_step(false, evs[0]);
        let rest = spec_delegate_run(d2, evs.drop_first());
        let whole = spec_delegate_run(false, evs);
        assert(whole == msgs + rest);
        match evs[0] {
            SpecDelegateEvent::ChildDone(outcome, ro, re) => {
                lemma_run_after_done(evs.drop_first());
                assert(whole =~= msgs);
                assert forall|i: int|
                    0 <= i < whole.len() && is_terminal_message(whole[i]) implies i == whole.len()
                    - 1 by {
                    if i < msgs.len() - 1 {
                        assert(!is_terminal_message(msgs[i]));
                    }
                }
            },
            _ => {
                lemma_delegate_single_terminal(evs.drop_first());
                assert forall|i: int|
                    0 <= i < whole.len() && is_terminal_message(whole[i]) implies i == whole.len()
                    - 1 by {
                    assert(msgs.len() <= 1);
                    if i < msgs.len() {
                        assert(!is_terminal_message(msgs[i]));
                    } else {
                        assert(whole[i] == rest[i - msgs.len()]);
                        assert(rest.len() > 0);
                        assert(i - msgs.len() == rest.len() - 1);
                    }
                }
            },
        }
    }
}

} // verus!
