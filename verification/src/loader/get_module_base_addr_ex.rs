//! Finding the loader library among a process's modules by its full path.
pub use crate::wapi::get_module_base_ex::GetModuleBaseEx;
