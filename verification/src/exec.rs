//! The execution-plan interpreter, as an explicit small-step machine.
//!
//! The machine owns the recursion over the plan tree and every decision:
//! registry lookup before spawning, conditional chaining on the left
//! side's status, the spawn order and composition of a pipeline,
//! fire-and-forget background launches, and the validity of a
//! redirection. What it cannot do itself — spawn an OS child, run a
//! built-in's one OS action, wait for termination, connect streams — it
//! requests from the surrounding binary, which performs the action and
//! answers with an event.
//!
//! A spawn failure is terminal for its node: the machine turns it into a
//! process whose status is failure, never a raised error, so `And`, `Or`
//! and pipe composition need no special-casing.

use vstd::prelude::*;
use crate::builtins::{spec_from_name, BuiltinCommands};
use crate::plan::{spec_redirect_valid, ExecutionPlan, PipeRedirection};
use crate::status::{BuiltinExitStatus, VashExitStatus};

verus! {

/// A process as the machine tracks it: a live entry in the supervisor's
/// process table, or a precomputed status with no live process at all.
#[derive(Debug, Clone, Copy, PartialEq)]
pub enum MProc {
    Live(usize),
    Precomputed(BuiltinExitStatus),
}

/// One suspended obligation of the machine.
#[derive(Debug, PartialEq)]
pub enum ExecFrame {
    /// An `And` whose left side is being evaluated; the plan is its right side.
    AndRight(ExecutionPlan),
    /// An `Or` whose left side is being evaluated; the plan is its right side.
    OrRight(ExecutionPlan),
    /// A pipe whose right side is being evaluated; the plan is its left side.
    PipeEvalLeft(ExecutionPlan),
    /// A pipe whose left side is being evaluated; the value is its
    /// already-launched right side.
    PipeConnect(MProc),
    /// A background launch being evaluated.
    BackgroundDone,
    /// A redirection whose inner plan is being evaluated.
    RedirectApply(PipeRedirection),
}

/// Where the machine stands.
#[derive(Debug, PartialEq)]
pub enum Ctrl {
    /// Evaluating this plan node.
    Eval(ExecutionPlan),
    /// A node evaluated to this process.
    Value(MProc),
    /// Waiting for the supervisor to launch, run, or redirect something.
    AwaitingLaunch,
    /// Waiting for the supervisor to connect a pipeline.
    AwaitingConnect,
    /// Waiting for the held process's terminal status.
    AwaitingStatus(MProc),
    /// Evaluation finished with this process.
    Done(MProc),
}

/// What the machine asks the supervisor to do.
#[derive(Debug, PartialEq)]
pub enum ExecRequest {
    /// Nothing; call `step` again.
    Continue,
    /// Spawn this program with the standard streams piped; answer
    /// `Launched` or `SpawnFailed`.
    Spawn(String, Vec<String>),
    /// Dispatch this built-in synchronously; answer `Launched`, unless
    /// the built-in terminates the shell.
    RunBuiltin(BuiltinCommands, Vec<String>),
    /// Await this process's terminal status; answer `Status`.
    WaitChild(MProc),
    /// Connect the pipeline; left stage first, right stage second.
    /// Answer `Launched` with the composed process.
    ConnectPipe(MProc, MProc),
    /// Connect the redirection around the process; answer `Launched`,
    /// or `SpawnFailed` if a file cannot be opened.
    ApplyRedirect(MProc, PipeRedirection),
    /// Let the process run unobserved; do not block on it. No answer.
    Detach(MProc),
    /// Evaluation finished with this process.
    Finished(MProc),
}

/// The supervisor's answer to a request.
#[derive(Debug, Clone, Copy, PartialEq)]
pub enum ExecEvent {
    /// The requested process exists, at this process table index.
    Launched(usize),
    /// The OS could not create the process, or the redirection could not
    /// be connected.
    SpawnFailed,
    /// The awaited process terminated with this status.
    Status(VashExitStatus),
}

/// The interpreter's state: what it is doing now, and the suspended
/// obligations around it, innermost last.
#[derive(Debug)]
pub struct ExecMachine {
    pub ctrl: Ctrl,
    pub stack: Vec<ExecFrame>,
}

/// One internal step of the machine.
pub open spec fn spec_step(ctrl: Ctrl, stack: Seq<ExecFrame>) -> (Ctrl, Seq<ExecFrame>, ExecRequest)
    recommends
        ctrl is Eval || ctrl is Value,
{
    match ctrl {
        Ctrl::Eval(p) => match p {
            ExecutionPlan::Execute(name, args) => match spec_from_name(name@) {
                Some(b) => (Ctrl::AwaitingLaunch, stack, ExecRequest::RunBuiltin(b, args)),
                None => (Ctrl::AwaitingLaunch, stack, ExecRequest::Spawn(name, args)),
            },
            ExecutionPlan::And(l, r) => (
                Ctrl::Eval(*l),
                stack.push(ExecFrame::AndRight(*r)),
                ExecRequest::Continue,
            ),
            ExecutionPlan::Or(l, r) => (
                Ctrl::Eval(*l),
                stack.push(ExecFrame::OrRight(*r)),
                ExecRequest::Continue,
            ),
            ExecutionPlan::Pipe(l, r) => (
                Ctrl::Eval(*r),
                stack.push(ExecFrame::PipeEvalLeft(*l)),
                ExecRequest::Continue,
            ),
            ExecutionPlan::Background(inner) => (
                Ctrl::Eval(*inner),
                stack.push(ExecFrame::BackgroundDone),
                ExecRequest::Continue,
            ),
            ExecutionPlan::RedirectPipe(inner, rd) => {
                if spec_redirect_valid(rd@) {
                    (Ctrl::Eval(*inner), stack.push(ExecFrame::RedirectApply(rd)), ExecRequest::Continue)
                } else {
                    (
                        Ctrl::Value(MProc::Precomputed(BuiltinExitStatus::spec_new_failure())),
                        stack,
                        ExecRequest::Continue,
                    )
                }
            },
            ExecutionPlan::NoOp => (
                Ctrl::Value(MProc::Precomputed(BuiltinExitStatus::spec_new_success())),
                stack,
                ExecRequest::Continue,
            ),
        },
        Ctrl::Value(v) => {
            if stack.len() == 0 {
                (Ctrl::Done(v), stack, ExecRequest::Finished(v))
            } else {
                let rest = stack.drop_last();
                match stack.last() {
                    ExecFrame::AndRight(_) | ExecFrame::OrRight(_) => (
                        Ctrl::AwaitingStatus(v),
                        stack,
                        ExecRequest::WaitChild(v),
                    ),
                    ExecFrame::PipeEvalLeft(l) => (
                        Ctrl::Eval(l),
                        rest.push(ExecFrame::PipeConnect(v)),
                        ExecRequest::Continue,
                    ),
                    ExecFrame::PipeConnect(rv) => (
                        Ctrl::AwaitingConnect,
                        rest,
                        ExecRequest::ConnectPipe(v, rv),
                    ),
                    ExecFrame::BackgroundDone => (
                        Ctrl::Value(MProc::Precomputed(BuiltinExitStatus::spec_new_success())),
                        rest,
                        ExecRequest::Detach(v),
                    ),
                    ExecFrame::RedirectApply(rd) => (
                        Ctrl::AwaitingLaunch,
                        rest,
                        ExecRequest::ApplyRedirect(v, rd),
                    ),
                }
            }
        },
        _ => (ctrl, stack, ExecRequest::Continue),
    }
}

/// The machine's state after the supervisor's answer.
pub open spec fn spec_provide(ctrl: Ctrl, stack: Seq<ExecFrame>, ev: ExecEvent) -> (
    Ctrl,
    Seq<ExecFrame>,
) {
    match (ctrl, ev) {
        (Ctrl::AwaitingLaunch, ExecEvent::Launched(id)) => (Ctrl::Value(MProc::Live(id)), stack),
        (Ctrl::AwaitingLaunch, ExecEvent::SpawnFailed) => (
            Ctrl::Value(MProc::Precomputed(BuiltinExitStatus::spec_new_failure())),
            stack,
        ),
        (Ctrl::AwaitingConnect, ExecEvent::Launched(id)) => (Ctrl::Value(MProc::Live(id)), stack),
        (Ctrl::AwaitingStatus(v), ExecEvent::Status(s)) => {
            let rest = stack.drop_last();
            match stack.last() {
                ExecFrame::AndRight(r) => {
                    if s.spec_success() {
                        (Ctrl::Eval(r), rest)
                    } else {
                        (Ctrl::Value(v), rest)
                    }
                },
                ExecFrame::OrRight(r) => {
                    if s.spec_success() {
                        (Ctrl::Value(v), rest)
                    } else {
                        (Ctrl::Eval(r), rest)
                    }
                },
                _ => (ctrl, stack),
            }
        },
        _ => (ctrl, stack),
    }
}

impl ExecMachine {
    /// The machine is waiting for an answer from the supervisor.
    pub open spec fn awaiting(self) -> bool {
        self.ctrl is AwaitingLaunch || self.ctrl is AwaitingConnect || self.ctrl is AwaitingStatus
    }

    /// The machine has internal work or a value to dispatch.
    pub open spec fn running(self) -> bool {
        self.ctrl is Eval || self.ctrl is Value
    }

    /// A status is only ever awaited under a conditional frame.
    pub open spec fn wf(self) -> bool {
        self.ctrl is AwaitingStatus ==> self.stack@.len() > 0 && (self.stack@.last() is AndRight
            || self.stack@.last() is OrRight)
    }

    /// A fresh machine, set to evaluate the whole plan.
    pub fn new(plan: ExecutionPlan) -> (m: ExecMachine)
        ensures
            m.ctrl == Ctrl::Eval(plan),
            m.stack@.len() == 0,
            m.wf(),
    {
        ExecMachine { ctrl: Ctrl::Eval(plan), stack: Vec::new() }
    }

    /// One step of evaluation: does any internal work, and returns what
    /// the supervisor must do next.
    pub fn step(&mut self) -> (r: ExecRequest)
        requires
            old(self).running(),
            old(self).wf(),
        ensures
            ({
                let (c2, s2, rq) = spec_step(old(self).ctrl, old(self).stack@);
                final(self).ctrl == c2 && final(self).stack@ == s2 && r == rq
            }),
            final(self).wf(),
    {
        let mut c = Ctrl::AwaitingLaunch;
        core::mem::swap(&mut c, &mut self.ctrl);
        match c {
            Ctrl::Eval(p) => match p {
                ExecutionPlan::Execute(name, args) => {
                    let hit = BuiltinCommands::from_name(name.as_str());
                    self.ctrl = Ctrl::AwaitingLaunch;
                    match hit {
                        Some(b) => ExecRequest::RunBuiltin(b, args),
                        None => ExecRequest::Spawn(name, args),
                    }
                },
                ExecutionPlan::And(l, r) => {
                    self.stack.push(ExecFrame::AndRight(*r));
                    self.ctrl = Ctrl::Eval(*l);
                    ExecRequest::Continue
                },
                ExecutionPlan::Or(l, r) => {
                    self.stack.push(ExecFrame::OrRight(*r));
                    self.ctrl = Ctrl::Eval(*l);
                    ExecRequest::Continue
                },
                ExecutionPlan::Pipe(l, r) => {
                    self.stack.push(ExecFrame::PipeEvalLeft(*l));
                    self.ctrl = Ctrl::Eval(*r);
                    ExecRequest::Continue
                },
                ExecutionPlan::Background(inner) => {
                    self.stack.push(ExecFrame::BackgroundDone);
                    self.ctrl = Ctrl::Eval(*inner);
                    ExecRequest::Continue
                },
                ExecutionPlan::RedirectPipe(inner, rd) => {
                    if rd.is_valid() {
                        self.stack.push(ExecFrame::RedirectApply(rd));
                        self.ctrl = Ctrl::Eval(*inner);
                        ExecRequest::Continue
                    } else {
                        self.ctrl = Ctrl::Value(
                            MProc::Precomputed(BuiltinExitStatus::new_failure()),
                        );
                        ExecRequest::Continue
                    }
                },
                ExecutionPlan::NoOp => {
                    self.ctrl = Ctrl::Value(MProc::Precomputed(BuiltinExitStatus::new_success()));
                    ExecRequest::Continue
                },
            },
            Ctrl::Value(v) => {
                match self.stack.pop() {
                    None => {
                        self.ctrl = Ctrl::Done(v);
                        ExecRequest::Finished(v)
                    },
                    Some(top) => match top {
                        ExecFrame::AndRight(r) => {
                            self.stack.push(ExecFrame::AndRight(r));
                            self.ctrl = Ctrl::AwaitingStatus(v);
                            proof {
                                assert(self.stack@ =~= old(self).stack@);
                            }
                            ExecRequest::WaitChild(v)
                        },
                        ExecFrame::OrRight(r) => {
                            self.stack.push(ExecFrame::OrRight(r));
                            self.ctrl = Ctrl::AwaitingStatus(v);
                            proof {
                                assert(self.stack@ =~= old(self).stack@);
                            }
                            ExecRequest::WaitChild(v)
                        },
                        ExecFrame::PipeEvalLeft(l) => {
                            self.stack.push(ExecFrame::PipeConnect(v));
                            self.ctrl = Ctrl::Eval(l);
                            ExecRequest::Continue
                        },
                        ExecFrame::PipeConnect(rv) => {
                            self.ctrl = Ctrl::AwaitingConnect;
                            ExecRequest::ConnectPipe(v, rv)
                        },
                        ExecFrame::BackgroundDone => {
                            self.ctrl = Ctrl::Value(
                                MProc::Precomputed(BuiltinExitStatus::new_success()),
                            );
                            ExecRequest::Detach(v)
                        },
                        ExecFrame::RedirectApply(rd) => {
                            self.ctrl = Ctrl::AwaitingLaunch;
                            ExecRequest::ApplyRedirect(v, rd)
                        },
                    },
                }
            },
            _ => {
                proof {
                    assert(false);
                }
                ExecRequest::Continue
            },
        }
    }

    /// Feeds the supervisor's answer back into the machine.
    pub fn provide(&mut self, ev: ExecEvent)
        requires
            old(self).wf(),
            match ev {
                ExecEvent::Launched(_) => old(self).ctrl is AwaitingLaunch || old(
                    self,
                ).ctrl is AwaitingConnect,
                ExecEvent::SpawnFailed => old(self).ctrl is AwaitingLaunch,
                ExecEvent::Status(_) => old(self).ctrl is AwaitingStatus,
            },
        ensures
            ({
                let (c2, s2) = spec_provide(old(self).ctrl, old(self).stack@, ev);
                final(self).ctrl == c2 && final(self).stack@ == s2
            }),
            final(self).wf(),
    {
        let mut c = Ctrl::AwaitingLaunch;
        core::mem::swap(&mut c, &mut self.ctrl);
        match (c, ev) {
            (Ctrl::AwaitingLaunch, ExecEvent::Launched(id)) => {
                self.ctrl = Ctrl::Value(MProc::Live(id));
            },
            (Ctrl::AwaitingLaunch, ExecEvent::SpawnFailed) => {
                self.ctrl = Ctrl::Value(MProc::Precomputed(BuiltinExitStatus::new_failure()));
            },
            (Ctrl::AwaitingConnect, ExecEvent::Launched(id)) => {
                self.ctrl = Ctrl::Value(MProc::Live(id));
            },
            (Ctrl::AwaitingStatus(v), ExecEvent::Status(s)) => {
                match self.stack.pop() {
                    Some(ExecFrame::AndRight(r)) => {
                        if s.success() {
                            self.ctrl = Ctrl::Eval(r);
                        } else {
                            self.ctrl = Ctrl::Value(v);
                        }
                    },
                    Some(ExecFrame::OrRight(r)) => {
                        if s.success() {
                            self.ctrl = Ctrl::Value(v);
                        } else {
                            self.ctrl = Ctrl::Eval(r);
                        }
                    },
                    _ => {
                        proof {
                            assert(false);
                        }
                    },
                }
            },
            _ => {
                proof {
                    assert(false);
                }
            },
        }
    }
}

// ---------------------------------------------------------------------------
// Conditional chaining, stated on its own
// ---------------------------------------------------------------------------

/// `And` with a successful left side evaluates its right side.
pub proof fn lemma_and_success_runs_right(
    v: MProc,
    r: ExecutionPlan,
    stack: Seq<ExecFrame>,
    s: VashExitStatus,
)
    requires
        s.spec_success(),
    ensures
        spec_provide(
            Ctrl::AwaitingStatus(v),
            stack.push(ExecFrame::AndRight(r)),
            ExecEvent::Status(s),
        ) == (Ctrl::Eval(r), stack),
{
    assert(stack.push(ExecFrame::AndRight(r)).drop_last() =~= stack);
}

/// `And` with a failed left side does not touch its right side: it
/// returns the left side's already-terminated process unchanged.
pub proof fn lemma_and_failure_returns_left(
    v: MProc,
    r: ExecutionPlan,
    stack: Seq<ExecFrame>,
    s: VashExitStatus,
)
    requires
        !s.spec_success(),
    ensures
        spec_provide(
            Ctrl::AwaitingStatus(v),
            stack.push(ExecFrame::AndRight(r)),
            ExecEvent::Status(s),
        ) == (Ctrl::Value(v), stack),
{
    assert(stack.push(ExecFrame::AndRight(r)).drop_last() =~= stack);
}

/// `Or` with a successful left side does not touch its right side: it
/// returns the left side's process unchanged.
pub proof fn lemma_or_success_returns_left(
    v: MProc,
    r: ExecutionPlan,
    stack: Seq<ExecFrame>,
    s: VashExitStatus,
)
    requires
        s.spec_success(),
    ensures
        spec_provide(
            Ctrl::AwaitingStatus(v),
            stack.push(ExecFrame::OrRight(r)),
            ExecEvent::Status(s),
        ) == (Ctrl::Value(v), stack),
{
    assert(stack.push(ExecFrame::OrRight(r)).drop_last() =~= stack);
}

/// `Or` with a failed left side evaluates its right side.
pub proof fn lemma_or_failure_runs_right(
    v: MProc,
    r: ExecutionPlan,
    stack: Seq<ExecFrame>,
    s: VashExitStatus,
)
    requires
        !s.spec_success(),
    ensures
        spec_provide(
            Ctrl::AwaitingStatus(v),
            stack.push(ExecFrame::OrRight(r)),
            ExecEvent::Status(s),
        ) == (Ctrl::Eval(r), stack),
{
    assert(stack.push(ExecFrame::OrRight(r)).drop_last() =~= stack);
}

} // verus!
