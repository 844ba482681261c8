[package]
name = "monitor_config"
version = "0.1.0"
edition = "2021"
publish = false

[dependencies]
clap = { version = "4", features = ["derive"] }
serde = { version = "1", features = ["derive"] }
serde_json = "1"
windows-sys = { version = "*", features = ["Win32_Foundation", "Win32_Graphics_Gdi", "Win32_Devices_Display"] }
