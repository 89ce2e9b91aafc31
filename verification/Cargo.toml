[package]
name = "emoji_picker"
version = "0.1.0"
edition = "2021"
publish = false

[dependencies]
emojis = "=0.9.1"
libc = "=0.2.191"
raw-window-handle = "=0.6.2"
slint = { version = "~1.6", default-features = false, features = ["std", "compat-1-2", "raw-window-handle-06"] }
thiserror = "=2.0.21"
tray-item = "=0.10.0"
windows = { version = "=0.58.0", features = ["Win32_Foundation", "Win32_Graphics_Gdi", "Win32_System_Com", "Win32_System_DataExchange", "Win32_System_Memory", "Win32_System_Ole", "Win32_System_Variant", "Win32_UI_Accessibility", "Win32_UI_Input_KeyboardAndMouse", "Win32_UI_WindowsAndMessaging"] }
windows-sys = { version = "=0.61.2", features = ["Win32_Foundation", "Win32_UI_Input_KeyboardAndMouse", "Win32_UI_WindowsAndMessaging"] }
