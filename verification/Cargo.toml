[package]
name = "souls_patch"
version = "0.1.0"
edition = "2021"
publish = false

[dependencies]
region = "3"
windows = { version = "0.61", features = ["Win32_Foundation", "Win32_System_LibraryLoader", "Win32_System_Memory"] }
winapi = { version = "0.3", features = ["libloaderapi", "processthreadsapi", "minwindef", "handleapi", "winnt"] }
