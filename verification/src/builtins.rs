//! The built-in command registry: an explicit closed table from name to
//! handler, consulted before any OS process is spawned.
//!
//! A built-in runs inside the shell. What each one computes is decided by
//! the functions here; the surrounding binary performs the one OS action
//! a built-in needs (reading or changing the working directory) and hands
//! the outcome back.

use vstd::prelude::*;
use vstd::string::StringExecFns;
use crate::process::VashProcess;
use crate::child::VashChild;

verus! {

/// Changes the process-wide working directory.
#[derive(Debug, Clone, Copy, PartialEq, Eq, Structural, Default)]
pub struct Cd;

/// Prints the canonical current working directory.
#[derive(Debug, Clone, Copy, PartialEq, Eq, Structural, Default)]
pub struct Pwd;

/// Asks the interactive loop to wind down gracefully.
#[derive(Debug, Clone, Copy, PartialEq, Eq, Structural, Default)]
pub struct Exit;

/// A command implemented inside the shell process.
pub trait BuiltinCommand {
    /// The name the registry matches against.
    fn name(&self) -> &'static str;
}

impl BuiltinCommand for Cd {
    fn name(&self) -> (r: &'static str)
        ensures
            r@ == "cd"@,
    {
        "cd"
    }
}

impl BuiltinCommand for Pwd {
    fn name(&self) -> (r: &'static str)
        ensures
            r@ == "pwd"@,
    {
        "pwd"
    }
}

impl BuiltinCommand for Exit {
    fn name(&self) -> (r: &'static str)
        ensures
            r@ == "exit"@,
    {
        "exit"
    }
}

/// The closed set of built-in commands.
#[derive(Debug, Clone, Copy, PartialEq, Eq, Structural)]
pub enum BuiltinCommands {
    Cd(Cd),
    Pwd(Pwd),
    Exit(Exit),
}

/// The registry lookup: which built-in a command name resolves to.
pub open spec fn spec_from_name(name: Seq<char>) -> Option<BuiltinCommands> {
    if name == "cd"@ {
        Some(BuiltinCommands::Cd(Cd))
    } else if name == "pwd"@ {
        Some(BuiltinCommands::Pwd(Pwd))
    } else if name == "exit"@ {
        Some(BuiltinCommands::Exit(Exit))
    } else {
        None
    }
}

impl BuiltinCommands {
    /// Looks a command name up in the registry.
    pub fn from_name(name: &str) -> (r: Option<BuiltinCommands>)
        ensures
            r == spec_from_name(name@),
    {
        let n = String::from_str(name);
        if n == String::from_str("cd") {
            Some(BuiltinCommands::Cd(Cd))
        } else if n == String::from_str("pwd") {
            Some(BuiltinCommands::Pwd(Pwd))
        } else if n == String::from_str("exit") {
            Some(BuiltinCommands::Exit(Exit))
        } else {
            None
        }
    }

    /// Whether dispatching this built-in asks the interactive loop to
    /// shut down cleanly, instead of producing a process.
    pub fn terminates_shell(&self) -> (b: bool)
        ensures
            b == (self matches BuiltinCommands::Exit(_)),
    {
        match self {
            BuiltinCommands::Exit(_) => true,
            _ => false,
        }
    }
}

impl Cd {
    /// The path argument of the directory change: the first argument, or
    /// the empty path when none is given.
    pub fn target_path(args: &Vec<String>) -> (p: String)
        ensures
            args@.len() > 0 ==> p@ == args@[0]@,
            args@.len() == 0 ==> p@ == Seq::<char>::empty(),
    {
        if args.len() > 0 {
            args[0].clone()
        } else {
            String::new()
        }
    }

    /// The process reported once the working-directory change was tried:
    /// a silent success when the directory changed, a silent failure when
    /// canonicalization or permission failed — never a crash.
    pub fn outcome(changed: bool) -> (p: VashProcess)
        ensures
            p.child matches VashChild::PreExecuted(s) && s.spec_success() == changed,
    {
        if changed {
            VashProcess::sink()
        } else {
            VashProcess::sink_failure()
        }
    }
}

impl Pwd {
    /// The line the working-directory built-in writes to its synthetic
    /// standard output: the canonical current directory and a newline.
    pub fn render(cwd: &str) -> (out: String)
        ensures
            out@ == cwd@ + "\n"@,
    {
        let mut s = String::from_str(cwd);
        s.append("\n");
        s
    }
}

} // verus!
