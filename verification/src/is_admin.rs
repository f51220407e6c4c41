//! Whether the process runs elevated.
use vstd::prelude::*;

verus! {

/// Elevated when the token's elevation flag was read and is nonzero; a
/// failed query counts as not elevated.
pub fn is_elevated(token_is_elevated: Option<u32>) -> (r: bool)
    ensures
        r == (token_is_elevated matches Some(v) && v > 0),
{
    match token_is_elevated {
        Some(v) => v > 0,
        None => false,
    }
}

} // verus!
