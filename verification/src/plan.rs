//! The execution plan: an immutable tree describing one command line's
//! control structure. Children are owned exclusively by their parent node;
//! the tree never mutates after parsing.

use vstd::prelude::*;

verus! {

/// An endpoint of a redirection, over mathematical values.
pub enum SpecPipeType {
    Stdout,
    Stderr,
    Stdin,
    Null,
    File(Seq<char>),
}

/// An endpoint of a redirection: a standard stream, a discarding sink, or
/// a file by path.
#[derive(Debug, PartialEq)]
pub enum PipeType {
    Stdout,
    Stderr,
    Stdin,
    Null,
    File(String),
}

impl View for PipeType {
    type V = SpecPipeType;

    open spec fn view(&self) -> SpecPipeType {
        match self {
            PipeType::Stdout => SpecPipeType::Stdout,
            PipeType::Stderr => SpecPipeType::Stderr,
            PipeType::Stdin => SpecPipeType::Stdin,
            PipeType::Null => SpecPipeType::Null,
            PipeType::File(p) => SpecPipeType::File(p@),
        }
    }
}

/// A redirection, over mathematical values.
pub struct SpecPipeRedirection {
    pub from: SpecPipeType,
    pub to: SpecPipeType,
    pub append: bool,
}

/// A redirection: connect `from` to `to`, appending to a file target
/// instead of truncating it when `append` is set.
#[derive(Debug, PartialEq)]
pub struct PipeRedirection {
    pub from: PipeType,
    pub to: PipeType,
    pub append: bool,
}

impl View for PipeRedirection {
    type V = SpecPipeRedirection;

    open spec fn view(&self) -> SpecPipeRedirection {
        SpecPipeRedirection { from: self.from@, to: self.to@, append: self.append }
    }
}

/// A redirection source must be a readable end (stdout, stderr, or a file)
/// and a destination a writable one (stdin, a discarding sink, or a file).
pub open spec fn spec_redirect_valid(r: SpecPipeRedirection) -> bool {
    &&& match r.from {
        SpecPipeType::Stdout | SpecPipeType::Stderr | SpecPipeType::File(_) => true,
        SpecPipeType::Stdin | SpecPipeType::Null => false,
    }
    &&& match r.to {
        SpecPipeType::Stdin | SpecPipeType::Null | SpecPipeType::File(_) => true,
        SpecPipeType::Stdout | SpecPipeType::Stderr => false,
    }
}

impl PipeRedirection {
    /// Decides whether this redirection names a runnable configuration.
    pub fn is_valid(&self) -> (b: bool)
        ensures
            b == spec_redirect_valid(self@),
    {
        let from_ok = match self.from {
            PipeType::Stdout | PipeType::Stderr | PipeType::File(_) => true,
            PipeType::Stdin | PipeType::Null => false,
        };
        let to_ok = match self.to {
            PipeType::Stdin | PipeType::Null | PipeType::File(_) => true,
            PipeType::Stdout | PipeType::Stderr => false,
        };
        from_ok && to_ok
    }
}

/// An execution plan, over mathematical values.
pub enum SpecPlan {
    Execute(Seq<char>, Seq<Seq<char>>),
    Pipe(Box<SpecPlan>, Box<SpecPlan>),
    And(Box<SpecPlan>, Box<SpecPlan>),
    Or(Box<SpecPlan>, Box<SpecPlan>),
    Background(Box<SpecPlan>),
    RedirectPipe(Box<SpecPlan>, SpecPipeRedirection),
    NoOp,
}

/// One command line's control structure: a command with its arguments,
/// combined by pipes, conditional chaining, background launch, and
/// redirection. The empty line is the explicit `NoOp`.
#[derive(Debug, PartialEq)]
pub enum ExecutionPlan {
    Execute(String, Vec<String>),
    Pipe(Box<ExecutionPlan>, Box<ExecutionPlan>),
    And(Box<ExecutionPlan>, Box<ExecutionPlan>),
    Or(Box<ExecutionPlan>, Box<ExecutionPlan>),
    Background(Box<ExecutionPlan>),
    RedirectPipe(Box<ExecutionPlan>, PipeRedirection),
    NoOp,
}

/// The mathematical value of an execution plan.
pub open spec fn plan_view(p: ExecutionPlan) -> SpecPlan
    decreases p,
{
    match p {
        ExecutionPlan::Execute(name, args) => SpecPlan::Execute(name@, args.deep_view()),
        ExecutionPlan::Pipe(l, r) => SpecPlan::Pipe(
            Box::new(plan_view(*l)),
            Box::new(plan_view(*r)),
        ),
        ExecutionPlan::And(l, r) => SpecPlan::And(Box::new(plan_view(*l)), Box::new(plan_view(*r))),
        ExecutionPlan::Or(l, r) => SpecPlan::Or(Box::new(plan_view(*l)), Box::new(plan_view(*r))),
        ExecutionPlan::Background(inner) => SpecPlan::Background(Box::new(plan_view(*inner))),
        ExecutionPlan::RedirectPipe(inner, r) => SpecPlan::RedirectPipe(
            Box::new(plan_view(*inner)),
            r@,
        ),
        ExecutionPlan::NoOp => SpecPlan::NoOp,
    }
}

impl View for ExecutionPlan {
    type V = SpecPlan;

    open spec fn view(&self) -> SpecPlan {
        plan_view(*self)
    }
}

impl DeepView for ExecutionPlan {
    type V = SpecPlan;

    open spec fn deep_view(&self) -> SpecPlan {
        plan_view(*self)
    }
}

} // verus!
