[package]
name = "mount_sidecar"
version = "0.1.0"
edition = "2021"
publish = false

[dependencies]
clap = { version = "4", default-features = false, features = ["derive", "std", "help"] }
libc = "0.2"
miette = "7"
rattler = { version = "=0.39.7", default-features = false }
rattler_conda_types = { version = "=0.42.4", default-features = false }
rattler_lock = { version = "=0.26.9", default-features = false }
rattler_networking = { version = "=0.25.29", default-features = false }
tokio = { version = "1", features = ["rt-multi-thread", "macros", "signal", "sync", "time"] }
tracing = "0.1"
windows-sys = { version = "0.61", features = ["Win32_Foundation", "Win32_Storage_FileSystem", "Win32_System_IO", "Win32_System_Threading", "Win32_Security"] }
