//! Reading a module's file name into a buffer that grows until the name fits.
use vstd::prelude::*;

verus! {

/// What to do after one attempt at reading a module's file name.
#[derive(Debug, PartialEq, Eq, Clone, Copy, Structural)]
pub enum NameStep {
    /// The name is the first this-many units of the buffer.
    Accept(u32),
    /// The buffer was filled, so the name may be cut short: grow it to this
    /// many units and read again.
    Grow(usize),
    /// The call failed with this last error.
    Fail(u32),
}

/// The decision after a call into a buffer of `buf_len` units returned
/// `len`: a full buffer grows by 1024 units, zero is a failure with the
/// last error, anything else is the name's length.
pub fn name_step(len: u32, buf_len: usize, last_error: u32) -> (r: NameStep)
    requires
        buf_len + 1024 <= usize::MAX,
    ensures
        r == if len as usize == buf_len {
            NameStep::Grow((buf_len + 1024) as usize)
        } else if len == 0 {
            NameStep::Fail(last_error)
        } else {
            NameStep::Accept(len)
        },
{
    if len as usize == buf_len {
        NameStep::Grow(buf_len + 1024)
    } else if len == 0 {
        NameStep::Fail(last_error)
    } else {
        NameStep::Accept(len)
    }
}

} // verus!
