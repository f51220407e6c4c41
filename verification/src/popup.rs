//! The icons of the loader's message boxes. Showing a box is a Windows call
//! made by the application.
use vstd::prelude::*;

verus! {

/// `MB_ICONINFORMATION`.
pub const MB_ICONINFORMATION: u32 = 0x40;
/// `MB_ICONERROR`.
pub const MB_ICONERROR: u32 = 0x10;

/// The icon shown in a message box.
#[derive(Debug, PartialEq, Eq, Clone, Copy, Structural)]
pub enum MessageBoxIcon {
    Information,
    Error,
}

impl MessageBoxIcon {
    /// The message box style bits that show this icon.
    pub fn style(self) -> (s: u32)
        ensures
            s == match self {
                MessageBoxIcon::Information => MB_ICONINFORMATION,
                MessageBoxIcon::Error => MB_ICONERROR,
            },
    {
        match self {
            MessageBoxIcon::Information => MB_ICONINFORMATION,
            MessageBoxIcon::Error => MB_ICONERROR,
        }
    }
}

} // verus!
