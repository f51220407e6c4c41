//! The WMI-notification watcher: what its waiting thread does once the wait
//! for the stop event ends. Registering for the notifications and the wait
//! itself are Windows calls made by the application.
use vstd::prelude::*;

verus! {

/// What the WMI watcher reports to its callback.
#[derive(Debug, PartialEq, Eq, Clone, Copy, Structural)]
pub enum CallType {
    /// A watched executable was started with this process id.
    Pid(u32),
    /// The time limit passed before any watched executable started.
    Timeout,
}

/// `WAIT_OBJECT_0`: the awaited object was signalled.
pub const WAIT_OBJECT_0: u32 = 0;
/// `WAIT_TIMEOUT`: the wait's time limit passed.
pub const WAIT_TIMEOUT: u32 = 0x102;
/// `INFINITE`: a wait without time limit.
pub const INFINITE: u32 = 0xFFFF_FFFF;

/// How the waiting thread ends.
#[derive(Debug, PartialEq, Eq, Clone, Copy, Structural)]
pub enum WaitOutcome {
    /// The wait failed: neither signalled nor timed out.
    Failed,
    /// The time limit passed and nothing was reported: report the timeout.
    ReportTimeout,
    /// The watcher was stopped, or a process was already reported.
    Finished,
}

/// The outcome of waiting on the stop event, given the wait's result code
/// and whether a watched process was already reported.
pub fn wait_outcome(res: u32, called: bool) -> (r: WaitOutcome)
    ensures
        r == if res != WAIT_OBJECT_0 && res != WAIT_TIMEOUT {
            WaitOutcome::Failed
        } else if res == WAIT_TIMEOUT && !called {
            WaitOutcome::ReportTimeout
        } else {
            WaitOutcome::Finished
        },
{
    if res != WAIT_OBJECT_0 && res != WAIT_TIMEOUT {
        WaitOutcome::Failed
    } else if res == WAIT_TIMEOUT && !called {
        WaitOutcome::ReportTimeout
    } else {
        WaitOutcome::Finished
    }
}

/// The time limit of a watcher without one: it waits `INFINITE`ly.
pub fn untimed() -> (ms: u32)
    ensures
        ms == INFINITE,
{
    INFINITE
}

} // verus!
