//! Who may talk to the loader's log pipe: only the patched game process,
//! presenting the random code it was handed when it was patched. The code
//! is issued here and handed to the game by the application; the pipe
//! server that would check it against a client is not part of this crate.
use vstd::prelude::*;

verus! {

/// `rand::random::<u64>()`: a random number from the thread-local
/// generator. Being random, nothing is claimed of it.
#[verifier::external_body]
fn random_code() -> u64 {
    rand::random::<u64>()
}

/// The process that was patched and the code it was handed.
#[derive(Debug, Clone, Copy, PartialEq, Eq, Structural)]
pub struct PipeAuth {
    pub pid: u32,
    pub code: u64,
}

impl PipeAuth {
    /// A fresh random code for the process `pid`.
    pub fn issue(pid: u32) -> (a: PipeAuth)
        ensures
            a.pid == pid,
    {
        PipeAuth { pid, code: random_code() }
    }

    /// Whether a pipe client may proceed.
    pub fn admits(&self, pid: u32, code: u64) -> (ok: bool)
        ensures
            ok == (pid == self.pid && code == self.code),
    {
        authorize(self.pid, self.code, pid, code)
    }
}

/// Whether a pipe client may proceed: it must be the process that was
/// patched (`expected_pid`) and present the code that process was handed
/// (`expected_code`).
pub fn authorize(expected_pid: u32, expected_code: u64, pid: u32, code: u64) -> (ok: bool)
    ensures
        ok == (pid == expected_pid && code == expected_code),
{
    if expected_pid != pid {
        return false;
    }
    expected_code == code
}

} // verus!
