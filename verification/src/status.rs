//! Exit statuses: the status a built-in declares, the status an OS child
//! reports, and the normalized view of either behind one `success`/`code`
//! contract.

use vstd::prelude::*;

verus! {

/// Exit status declared by a shell built-in. Success is exactly code 0.
#[derive(Debug, Clone, Copy, PartialEq)]
pub struct BuiltinExitStatus(Option<i32>);

impl BuiltinExitStatus {
    /// The declared numeric code, if any.
    pub closed spec fn spec_code(&self) -> Option<i32> {
        self.0
    }

    /// The value `new_success` builds.
    pub closed spec fn spec_new_success() -> BuiltinExitStatus {
        BuiltinExitStatus(Some(0i32))
    }

    /// The value `new_failure` builds.
    pub closed spec fn spec_new_failure() -> BuiltinExitStatus {
        BuiltinExitStatus(Some(1i32))
    }

    /// Success means the declared code is exactly 0.
    pub open spec fn spec_success(&self) -> bool {
        self.spec_code() == Some(0i32)
    }

    pub fn new_success() -> (r: Self)
        ensures
            r == Self::spec_new_success(),
            r.spec_code() == Some(0i32),
    {
        BuiltinExitStatus(Some(0))
    }

    pub fn new_failure() -> (r: Self)
        ensures
            r == Self::spec_new_failure(),
            r.spec_code() == Some(1i32),
    {
        BuiltinExitStatus(Some(1))
    }

    pub fn success(&self) -> (r: bool)
        ensures
            r == self.spec_success(),
    {
        match self.0 {
            Some(c) => c == 0,
            None => false,
        }
    }

    pub fn failure(&self) -> (r: bool)
        ensures
            r == !self.spec_success(),
    {
        !self.success()
    }

    pub fn code(&self) -> (r: Option<i32>)
        ensures
            r == self.spec_code(),
    {
        self.0
    }
}

/// Exit status of an OS child, as the shell reads it: the exit code, or
/// none when the child was ended by a signal. The surrounding binary
/// builds one from the status the OS reports.
#[derive(Debug, Clone, Copy, PartialEq)]
pub struct OsExitStatus {
    pub code: Option<i32>,
}

impl OsExitStatus {
    /// An OS child succeeded exactly when it exited with code 0.
    pub open spec fn spec_success(&self) -> bool {
        self.code == Some(0i32)
    }

    pub fn success(&self) -> (r: bool)
        ensures
            r == self.spec_success(),
    {
        match self.code {
            Some(c) => c == 0,
            None => false,
        }
    }
}

/// The terminal status of any process, normalized from either an OS
/// child's exit status or a built-in's declared status behind a single
/// `success`/`code` contract.
#[derive(Debug, Clone, Copy, PartialEq)]
pub enum VashExitStatus {
    Process(OsExitStatus),
    Builtin(BuiltinExitStatus),
}

impl VashExitStatus {
    pub open spec fn spec_code(&self) -> Option<i32> {
        match self {
            VashExitStatus::Process(s) => s.code,
            VashExitStatus::Builtin(s) => s.spec_code(),
        }
    }

    pub open spec fn spec_success(&self) -> bool {
        match self {
            VashExitStatus::Process(s) => s.spec_success(),
            VashExitStatus::Builtin(s) => s.spec_success(),
        }
    }

    pub fn code(&self) -> (r: Option<i32>)
        ensures
            r == self.spec_code(),
    {
        match self {
            VashExitStatus::Process(s) => s.code,
            VashExitStatus::Builtin(s) => s.code(),
        }
    }

    pub fn success(&self) -> (r: bool)
        ensures
            r == self.spec_success(),
    {
        match self {
            VashExitStatus::Process(s) => s.success(),
            VashExitStatus::Builtin(s) => s.success(),
        }
    }
}

/// Whichever side a status comes from, success means exactly code 0.
pub proof fn lemma_success_is_code_zero(s: VashExitStatus)
    ensures
        s.spec_success() <==> s.spec_code() == Some(0i32),
{
}

} // verus!
