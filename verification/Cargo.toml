[package]
name = "starb"
version = "0.1.0"
edition = "2021"
publish = false

[dependencies]
hashbrown = "=0.17.1"
sysinfo = "=0.39.6"
windows-sys = { version = "=0.61.2", features = ["Win32_Foundation", "Win32_System_Threading", "Win32_System_Memory", "Win32_System_Diagnostics_Debug", "Win32_System_ProcessStatus", "Win32_UI_WindowsAndMessaging"] }
eframe = { version = "=0.37.0", default-features = false, features = ["default_fonts", "glow", "persistence", "x11"] }
egui = "=0.37.0"
serde = { version = "=1.0.229", features = ["derive"] }
ron = "=0.12.2"
eyre = "=0.6.14"
color-eyre = "=0.6.5"
tracing = "=0.1.44"
tracing-subscriber = { version = "=0.3.23", features = ["env-filter"] }
tracing-appender = "=0.2.5"
tracing-error = "=0.2.1"
once_cell = "=1.21.4"
parking_lot = "=0.13.0"
path-clean = "=1.0.1"
target-lexicon = "=0.13.5"
steamworks-sys = "=0.13.0"
