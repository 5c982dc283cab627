[package]
name = "nztool_oar"
version = "0.1.0"
edition = "2021"
publish = false

[dependencies]
serde = { version = "1", features = ["derive"] }
serde_json = "1"
log = "0.4"
ureq = "2"
rdev = "0.5"
image = { version = "0.25", default-features = false, features = ["ico"] }
eframe = { version = "0.29", default-features = false, features = ["default_fonts", "glow"] }
windows = { version = "0.58", features = ["Win32_Foundation", "Win32_UI_WindowsAndMessaging", "Win32_System_ProcessStatus", "Win32_System_Threading", "Win32_Graphics_Gdi", "Win32_UI_Input_KeyboardAndMouse", "Win32_System_Console", "Win32_System_SystemInformation"] }
