[package]
name = "wepoll2"
version = "0.1.0"
edition = "2021"
publish = false

[dependencies]
errno = "*"
libc = "*"
lock_api = "*"
windows-sys = { version = "*", features = ["Wdk_Foundation", "Win32_Foundation", "Win32_Networking_WinSock", "Win32_System_IO", "Win32_System_Threading"] }
