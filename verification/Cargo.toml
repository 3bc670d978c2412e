[package]
name = "cursory"
version = "0.1.0"
edition = "2021"
publish = false

[dependencies]
global-hotkey = "=0.9.0"
thiserror = "=2.0.21"
windows = { version = "=0.58.0", features = ["Win32_Foundation", "Win32_Graphics_Dwm", "Win32_Graphics_Gdi", "Win32_Media", "Win32_System_LibraryLoader", "Win32_System_Registry", "Win32_System_Threading", "Win32_UI_Shell", "Win32_UI_WindowsAndMessaging", "Win32_Security"] }
iced = { version = "=0.14.0", default-features = false, features = ["tiny-skia", "canvas", "x11", "tokio"] }
