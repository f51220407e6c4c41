//! Reading a process's image path into a buffer that grows until it fits.
use vstd::prelude::*;

verus! {

/// `MAX_PATH`.
pub const MAX_PATH: usize = 260;

/// `ERROR_INSUFFICIENT_BUFFER` as an `HRESULT`.
pub const E_INSUFFICIENT_BUFFER: u32 = 0x8007_007A;

/// What to do after one attempt at reading the image path.
#[derive(Debug, PartialEq, Eq, Clone, Copy, Structural)]
pub enum ImageNameStep {
    /// The path is the first this-many units of the buffer.
    Accept(u32),
    /// The buffer was too small: grow it to this many units and read again.
    Grow(usize),
    /// The call failed with this error.
    Fail(u32),
}

/// The decision after a call into a buffer of `buf_len` units that either
/// wrote `size` units (`Ok`) or failed with an error code (`Err`).
pub fn image_name_step(result: Result<u32, u32>, buf_len: usize) -> (r: ImageNameStep)
    requires
        buf_len + MAX_PATH <= usize::MAX,
    ensures
        r == match result {
            Ok(size) => ImageNameStep::Accept(size),
            Err(code) => if code == E_INSUFFICIENT_BUFFER {
                ImageNameStep::Grow((buf_len + MAX_PATH) as usize)
            } else {
                ImageNameStep::Fail(code)
            },
        },
{
    match result {
        Ok(size) => ImageNameStep::Accept(size),
        Err(code) => if code == E_INSUFFICIENT_BUFFER {
            ImageNameStep::Grow(buf_len + MAX_PATH)
        } else {
            ImageNameStep::Fail(code)
        },
    }
}

} // verus!
