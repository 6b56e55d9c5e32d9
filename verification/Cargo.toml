[package]
name = "win7-notifications"
version = "0.1.0"
edition = "2021"
publish = false

[dependencies]
once_cell = "1"
windows-sys = { version = "0.52", features = ["Win32_Foundation", "Win32_Graphics_Dwm", "Win32_Graphics_Gdi", "Win32_Media_Audio", "Win32_System_Com", "Win32_System_LibraryLoader", "Win32_UI_Controls", "Win32_UI_WindowsAndMessaging"] }
