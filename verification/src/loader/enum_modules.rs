//! Listing a process's modules (the loader's first version of the loop):
//! partial copies of a live process are retried, growing the buffer when
//! the process needs more.
use vstd::prelude::*;

use crate::wapi::enum_modules::{E_PARTIAL_COPY, EnumStep, MODULE_HANDLE_SIZE};

verus! {

/// The decision after a call into a buffer of `size` bytes that needs
/// `needed` bytes: a failed call is retried (resizing first when the buffer
/// was too small) when it was a partial copy of a live process and fails
/// else; a successful call resizes a too small buffer and calls again, or
/// keeps `needed / 8` handles.
pub fn inner_step(error: Option<u32>, alive: bool, needed: u32, size: u32) -> (r: EnumStep)
    ensures
        r == match error {
            Some(code) => if alive && code == E_PARTIAL_COPY {
                if needed > size { EnumStep::Resize((needed / MODULE_HANDLE_SIZE) as usize) } else { EnumStep::Retry }
            } else {
                EnumStep::Fail
            },
            None => if needed > size {
                EnumStep::Resize((needed / MODULE_HANDLE_SIZE) as usize)
            } else {
                EnumStep::Done((needed / MODULE_HANDLE_SIZE) as usize)
            },
        },
{
    match error {
        Some(code) => {
            if alive && code == E_PARTIAL_COPY {
                if needed > size {
                    EnumStep::Resize((needed / MODULE_HANDLE_SIZE) as usize)
                } else {
                    EnumStep::Retry
                }
            } else {
                EnumStep::Fail
            }
        },
        None => {
            if needed > size {
                EnumStep::Resize((needed / MODULE_HANDLE_SIZE) as usize)
            } else {
                EnumStep::Done((needed / MODULE_HANDLE_SIZE) as usize)
            }
        },
    }
}

} // verus!
