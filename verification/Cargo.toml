[package]
name = "ed_timelapse"
version = "0.1.0"
edition = "2021"
publish = false

[dependencies]
anyhow = "=1.0.104"
chrono = "=0.4.45"
directories = "=5.0.1"
ed-journals = "=0.3.0"
egui = "=0.27.2"
egui_logger = "=0.4.4"
image = { version = "=0.24.9", default-features = false, features = ["bmp", "jpeg", "png"] }
log = "=0.4.34"
open = "=5.4.5"
serde = { version = "=1.0.229", features = ["derive"] }
windows = { version = "=0.52.0", features = ["Win32_Foundation", "Win32_UI_Input_KeyboardAndMouse", "Win32_UI_WindowsAndMessaging"] }
