//! The buffer-growing loops around the Windows calls that list a process's
//! modules and read module and process image paths: after each call, what
//! to do next. The calls themselves are made by the application.
pub mod enum_modules;
pub mod get_module_base_ex;
pub mod get_module_file_name_ex;
pub mod query_full_process_image_name;
