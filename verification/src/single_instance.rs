//! Deciding whether this is the only running instance, from the outcome of
//! creating the named startup mutex.
use vstd::prelude::*;

verus! {

/// `ERROR_ALREADY_EXISTS`.
pub const ERROR_ALREADY_EXISTS: u32 = 183;

/// The outcome of creating the startup mutex.
#[derive(Debug, PartialEq, Eq, Clone, Copy, Structural)]
pub enum InstanceCheck {
    /// This is the only instance.
    Acquired,
    /// The mutex could not be created.
    MutexFailed,
    /// Another instance holds the mutex.
    AlreadyRunning,
    /// The mutex was created, but the last error reports another failure.
    Failed(u32),
}

/// The check after `CreateMutexW` succeeded or not (`created`) and
/// `GetLastError` returned `last_error`.
pub fn instance_check(created: bool, last_error: u32) -> (r: InstanceCheck)
    ensures
        r == if !created {
            InstanceCheck::MutexFailed
        } else if last_error == ERROR_ALREADY_EXISTS {
            InstanceCheck::AlreadyRunning
        } else if last_error != 0 {
            InstanceCheck::Failed(last_error)
        } else {
            InstanceCheck::Acquired
        },
{
    if !created {
        InstanceCheck::MutexFailed
    } else if last_error == ERROR_ALREADY_EXISTS {
        InstanceCheck::AlreadyRunning
    } else if last_error != 0 {
        InstanceCheck::Failed(last_error)
    } else {
        InstanceCheck::Acquired
    }
}

} // verus!
