//! Translation of a child's termination into the session's own exit code.

use vstd::prelude::*;

verus! {

/// How the child process ended, as reported by the process reaper.
///
/// `Exited` carries the child's own exit code (0 to 255); `Signaled` carries
/// the number of the signal that killed it (1 to 64); `Other` stands for any
/// remaining kind of status report (stopped, continued, trace events).
#[derive(Clone, Copy, Debug, PartialEq, Eq, Structural)]
pub enum WaitOutcome {
    Exited(i32),
    Signaled(i32),
    Other,
}

impl WaitOutcome {
    /// The ranges the operating system guarantees: an exit code is one byte,
    /// a signal number is small and positive.
    pub open spec fn wf(&self) -> bool {
        match *self {
            WaitOutcome::Exited(code) => 0 <= code <= 255,
            WaitOutcome::Signaled(sig) => 1 <= sig <= 64,
            WaitOutcome::Other => true,
        }
    }
}

/// The exit code owed for each termination kind: a normal exit reports the
/// child's code, death by signal reports 128 plus the signal number, and
/// anything else is the generic failure code 1.
pub open spec fn spec_exit_code(w: WaitOutcome) -> int {
    match w {
        WaitOutcome::Exited(code) => code as int,
        WaitOutcome::Signaled(sig) => 128 + sig as int,
        WaitOutcome::Other => 1,
    }
}

/// Maps the child's termination to the session's exit code.
pub fn translate_exit(w: &WaitOutcome) -> (r: i32)
    requires
        w.wf(),
    ensures
        r as int == spec_exit_code(*w),
{
    match *w {
        WaitOutcome::Exited(code) => code,
        WaitOutcome::Signaled(sig) => 128 + sig,
        WaitOutcome::Other => 1,
    }
}

} // verus!
