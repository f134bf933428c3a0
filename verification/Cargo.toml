[package]
name = "cap_ime_switch"
version = "0.5.0"
edition = "2021"
publish = false

[dependencies]
parking_lot = "0.12"
serde = { version = "1", features = ["derive"] }
toml = "0.8"
windows-sys = { version = "0.59", features = ["Win32_Foundation", "Win32_Globalization", "Win32_Graphics_Gdi", "Win32_Security", "Win32_System_LibraryLoader", "Win32_System_SystemInformation", "Win32_System_Registry", "Win32_System_Threading", "Win32_UI_Input_KeyboardAndMouse", "Win32_UI_Shell", "Win32_UI_WindowsAndMessaging"] }
