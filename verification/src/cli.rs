//! The tools' command line, as values. The application parses it.
use vstd::prelude::*;

verus! {

/// A simple, non-invasive injector for BG3 native dll plugins.
#[derive(Debug, Clone, Copy, PartialEq, Eq)]
pub struct Args {
    /// Show console window.
    pub cli: bool,
    /// Print help.
    pub help: bool,
    /// Print version.
    pub version: bool,
}

} // verus!
