[package]
name = "mic_volume_control"
version = "0.1.0"
edition = "2021"
publish = false

[dependencies]
anyhow = "=1.0.104"
clap = { version = "=4.6.7", features = ["derive"] }
crossbeam-channel = "=0.5.17"
log = "=0.4.34"
serde = { version = "=1.0.229", features = ["derive"] }
toml = "=1.1.8"
tray-icon = { version = "=0.26.1", default-features = false, features = ["ksni"] }
windows = { version = "0.58", features = ["Win32_Foundation", "Win32_System_Com", "Win32_System_Com_StructuredStorage", "Win32_System_Ole", "Win32_System_TaskScheduler", "Win32_System_Variant", "Win32_Media_Audio", "Win32_Media_Audio_Endpoints"] }
winit = "=0.30.13"
