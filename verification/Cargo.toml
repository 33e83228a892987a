[package]
name = "wintag"
version = "0.1.0"
edition = "2021"
publish = false

[dependencies]
anyhow = "=1.0.104"
crossbeam-channel = "=0.5.17"
toml = { version = "=0.9.8", features = ["preserve_order"] }
serde = { version = "=1.0.229", features = ["derive"] }
iced = { version = "=0.14.0", default-features = false, features = ["tiny-skia", "tokio", "x11"] }
windows = { version = "=0.58.0", features = ["Win32_Foundation", "Win32_Graphics_Dwm", "Win32_Graphics_Gdi", "Win32_Security", "Win32_System_LibraryLoader", "Win32_System_ProcessStatus", "Win32_System_Registry", "Win32_System_Threading", "Win32_UI_Accessibility", "Win32_UI_Controls", "Win32_UI_HiDpi", "Win32_UI_Input_KeyboardAndMouse", "Win32_UI_Shell", "Win32_UI_WindowsAndMessaging"] }
