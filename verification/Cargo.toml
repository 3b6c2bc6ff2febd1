[package]
name = "open_share"
version = "0.1.0"
edition = "2021"
publish = false

[dependencies]
windows = { version = "0.58", features = ["Win32_Foundation", "Win32_NetworkManagement_WNet", "Win32_UI_Shell", "Win32_UI_WindowsAndMessaging"] }
