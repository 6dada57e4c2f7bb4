[package]
name = "folo"
version = "0.1.0"
edition = "2021"
publish = false

[dependencies]
negative-impl = "0.1"
oneshot = "0.1"
tracing = "0.1"
windows = { version = "0.58", features = ["Win32_Foundation", "Win32_Networking_WinSock", "Win32_System_IO"] }

[dev-dependencies]
futures = "0.3"
