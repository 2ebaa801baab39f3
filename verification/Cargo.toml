[package]
name = "network_direct"
version = "0.1.0"
edition = "2021"
publish = false

[dependencies]
bitflags = "=2.13.2"
windows = { version = "=0.61.3", features = ["Win32_Foundation", "Win32_Networking_WinSock", "Win32_System_IO", "Win32_System_Threading", "Win32_System_Environment", "Win32_System_LibraryLoader"] }
windows-core = "=0.61.2"
