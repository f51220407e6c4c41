//! Reading a module's file name (the loader's first version of the loop):
//! a full or empty result is judged by the last error.
use vstd::prelude::*;

use crate::loader::dirty::ERROR_INSUFFICIENT_BUFFER;
use crate::wapi::get_module_file_name_ex::NameStep;

verus! {

/// The decision after a call into a buffer of `buf_len` units returned
/// `len` with last error `last_error`: a full or zero result stands when
/// there is no error, grows the buffer by 1024 units on an insufficient
/// buffer, and is a failure when zero; any other result is the length.
pub fn name_step(len: u32, buf_len: usize, last_error: u32) -> (r: NameStep)
    requires
        buf_len + 1024 <= usize::MAX,
    ensures
        r == if len as usize == buf_len || len == 0 {
            if last_error == 0 {
                NameStep::Accept(len)
            } else if last_error == ERROR_INSUFFICIENT_BUFFER {
                NameStep::Grow((buf_len + 1024) as usize)
            } else if len == 0 {
                NameStep::Fail(last_error)
            } else {
                NameStep::Accept(len)
            }
        } else {
            NameStep::Accept(len)
        },
{
    if len as usize == buf_len || len == 0 {
        if last_error == 0 {
            return NameStep::Accept(len);
        }
        if last_error == ERROR_INSUFFICIENT_BUFFER {
            return NameStep::Grow(buf_len + 1024);
        }
        if len == 0 {
            return NameStep::Fail(last_error);
        }
    }
    NameStep::Accept(len)
}

} // verus!
