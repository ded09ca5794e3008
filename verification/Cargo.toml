[package]
name = "timesdump"
version = "0.1.0"
edition = "2021"
publish = false

[dependencies]
chrono = { version = "0.4", default-features = false, features = ["std", "clock"] }
arboard = { version = "3", default-features = false }
log = "0.4"
env_logger = { version = "0.11", default-features = false }
ctrlc = "3"
serde = { version = "1", features = ["derive"] }
serde_json = "1"
sys-locale = "0.3"
window-vibrancy = "0.6"
objc2 = "0.6"
objc2-app-kit = { version = "0.3", default-features = false }
windows = { version = "0.61", default-features = false, features = ["Win32_Foundation", "Win32_UI_WindowsAndMessaging"] }
