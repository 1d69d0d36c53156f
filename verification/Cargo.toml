[package]
name = "miniature"
version = "0.1.3"
edition = "2021"
publish = false

[dependencies]
widestring = "1"
windows = { version = "0.61", features = ["Win32_Foundation", "Win32_Storage_FileSystem", "Win32_UI_Shell", "Win32_UI_WindowsAndMessaging", "Win32_System_LibraryLoader", "Win32_System_SystemServices", "Win32_Media_KernelStreaming", "Win32_System_Console", "Win32_System_Threading", "Win32_System_JobObjects", "Win32_System_Memory", "Win32_System_Environment", "Win32_Security"] }
clap = { version = "4", features = ["derive"] }
thiserror = "2"
indicatif = "0.17"
scoop-shim = "0.1.1"
