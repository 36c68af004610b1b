[package]
name = "fxmini"
version = "0.1.0"
edition = "2021"
publish = false

[dependencies]
eframe = { version = "=0.37.0", default-features = false, features = ["default_fonts", "glow", "x11"] }
log = "0.4"
raw-window-handle = "=0.6.2"
tray-icon = { version = "=0.26.1", default-features = false, features = ["ksni"] }
windows = { version = "0.59", features = ["Win32_Foundation", "Win32_Globalization", "Win32_Graphics_Gdi", "Win32_UI_WindowsAndMessaging"] }
windows-core = "0.59"
winit = "=0.30.13"
