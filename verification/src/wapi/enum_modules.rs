//! Listing a process's modules into a buffer that grows to what the process
//! needs, retrying partial copies while the process is alive.
use vstd::prelude::*;

verus! {

/// `STILL_ACTIVE`: the exit code of a process that has not exited.
pub const STILL_ACTIVE: u32 = 259;

/// `ERROR_PARTIAL_COPY` as an `HRESULT`.
pub const E_PARTIAL_COPY: u32 = 0x8007_012B;

/// The size of one module handle in bytes.
pub const MODULE_HANDLE_SIZE: u32 = 8;

/// Whether a process is still running: its exit code could be read and is
/// `STILL_ACTIVE`.
pub fn is_alive(exit_code: Option<u32>) -> (r: bool)
    ensures
        r == (exit_code == Some(STILL_ACTIVE)),
{
    match exit_code {
        Some(code) => code == STILL_ACTIVE,
        None => false,
    }
}

/// What to do after one call that lists a process's modules.
#[derive(Debug, PartialEq, Eq, Clone, Copy, Structural)]
pub enum EnumStep {
    /// Resize the buffer to this many handles and call again.
    Resize(usize),
    /// Call again with the same buffer.
    Retry,
    /// The listing failed.
    Fail,
    /// The listing is complete: keep the first this-many handles.
    Done(usize),
}

/// The decision after a call into a buffer of `size` bytes that needs
/// `needed` bytes: a buffer that was too small is resized to what is needed
/// (whether or not the call failed); otherwise a failed call is retried
/// when it was a partial copy of a live process and fails else; a
/// successful call keeps `needed / 8` handles.
pub fn inner_step(error: Option<u32>, alive: bool, needed: u32, size: u32) -> (r: EnumStep)
    ensures
        r == if needed > size {
            EnumStep::Resize((needed / MODULE_HANDLE_SIZE) as usize)
        } else {
            match error {
                Some(code) => if alive && code == E_PARTIAL_COPY { EnumStep::Retry } else { EnumStep::Fail },
                None => EnumStep::Done((needed / MODULE_HANDLE_SIZE) as usize),
            }
        },
{
    if needed > size {
        return EnumStep::Resize((needed / MODULE_HANDLE_SIZE) as usize);
    }
    match error {
        Some(code) => if alive && code == E_PARTIAL_COPY { EnumStep::Retry } else { EnumStep::Fail },
        None => EnumStep::Done((needed / MODULE_HANDLE_SIZE) as usize),
    }
}

} // verus!
