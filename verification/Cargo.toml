[package]
name = "core_affinity"
version = "0.8.3"
edition = "2021"
publish = false

[dependencies]
libc = "0.2"
num_cpus = "1"
thiserror = "2"
windows-sys = { version = "*", default-features = false, features = ["Win32_System_Threading", "Win32_System_SystemInformation"] }
