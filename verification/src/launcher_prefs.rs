//! The launcher's rendering backend setting as `preferences.json` stores it.
//! Reading and writing that file, and the rest of its fields, are handled by
//! the application.
use vstd::prelude::*;

verus! {

/// The rendering backend the game launcher starts.
#[derive(Debug, PartialEq, Eq, Clone, Copy, Structural)]
pub enum Backend {
    /// Vulkan: stored as 0 (2 also selects it, and so does any unknown value).
    Vulkan,
    /// DirectX 11: stored as 1; also what a missing field means.
    Dx11,
}

impl Default for Backend {
    /// A missing backend field means DirectX 11.
    fn default() -> (b: Self)
        ensures
            b == Backend::Dx11,
    {
        Backend::Dx11
    }
}

/// The number a backend is stored as.
pub open spec fn backend_value(b: Backend) -> u8 {
    match b {
        Backend::Vulkan => 0,
        Backend::Dx11 => 1,
    }
}

/// The backend a stored number selects: 1 is DirectX 11, every other number
/// (0, 2, and unknown ones alike) is Vulkan, which is what the launcher
/// actually starts for them.
pub open spec fn backend_of(v: u8) -> Backend {
    if v == 1 { Backend::Dx11 } else { Backend::Vulkan }
}

impl Backend {
    /// The number this backend is written as.
    pub fn to_value(self) -> (v: u8)
        ensures
            v == backend_value(self),
    {
        match self {
            Backend::Vulkan => 0,
            Backend::Dx11 => 1,
        }
    }

    /// The backend a stored number selects.
    pub fn from_value(v: u8) -> (b: Backend)
        ensures
            b == backend_of(v),
    {
        match v {
            0 | 2 => Backend::Vulkan,
            1 => Backend::Dx11,
            _ => Backend::Vulkan,
        }
    }
}

/// Whether the backend is DirectX 11, the default, which is left out when
/// the preferences are written.
pub fn is_dx11(val: &Backend) -> (r: bool)
    ensures
        r == (*val == Backend::Dx11),
{
    *val == Backend::Dx11
}

/// Writing a backend and reading the number back gives the same backend.
pub proof fn lemma_backend_round_trip(b: Backend)
    ensures
        backend_of(backend_value(b)) == b,
{
}

/// The numbers 0 and 1 are read and written back unchanged; 2 and every
/// other number are read as Vulkan and written back as 0.
pub proof fn lemma_value_round_trip(v: u8)
    ensures
        v <= 1 ==> backend_value(backend_of(v)) == v,
        v > 1 ==> backend_value(backend_of(v)) == 0,
{
}

/// What the preferences file holds for a backend: nothing for DirectX 11
/// (the default, left out), else the backend's number.
pub open spec fn stored_field(b: Backend) -> Option<u8> {
    if b == Backend::Dx11 { None } else { Some(backend_value(b)) }
}

/// The backend read from what the file holds: the default, DirectX 11,
/// when the field is missing, else the backend the number selects.
pub open spec fn read_field(field: Option<u8>) -> Backend {
    match field {
        None => Backend::Dx11,
        Some(v) => backend_of(v),
    }
}

/// Saving a backend and reading the file back gives the same backend: the
/// field is written exactly when the backend is Vulkan (as 0), and a
/// missing field reads as DirectX 11. `is_dx11` decides the leaving out,
/// and `Backend::default` gives the missing field's value.
pub proof fn lemma_field_round_trip(b: Backend)
    ensures
        read_field(stored_field(b)) == b,
        stored_field(b) is Some <==> b == Backend::Vulkan,
        b == Backend::Vulkan ==> stored_field(b) == Some(0u8),
{
}

} // verus!
