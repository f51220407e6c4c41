[package]
name = "yet_another_bg3_mod_loader"
version = "0.1.0"
edition = "2021"
publish = false

[dependencies]
unicase = "=2.10.0"
sha256 = { version = "=1.6.0", default-features = false }
pelite = "=0.10.0"
rand = "=0.8.8"
directories = "=5.0.1"
serde = { version = "=1.0.229", features = ["derive"] }
serde_json = "=1.0.154"
eyre = "=0.6.14"
tracing = "=0.1.44"
tracing-subscriber = { version = "=0.3.23", features = ["env-filter"] }
tracing-appender = "=0.2.5"
clap = { version = "=4.6.7", features = ["derive"] }
human-panic = "=1.2.3"
sysinfo = "=0.29.11"
windows = { version = "=0.58.0", features = ["implement", "Win32_Foundation", "Win32_Security", "Win32_Storage_FileSystem", "Win32_System_Com", "Win32_System_Console", "Win32_System_Diagnostics_Debug", "Win32_System_LibraryLoader", "Win32_System_Memory", "Win32_System_ProcessStatus", "Win32_System_Rpc", "Win32_System_SystemInformation", "Win32_System_Threading", "Win32_System_Variant", "Win32_System_Wmi", "Win32_UI_WindowsAndMessaging"] }
windows-core = "=0.58.0"
