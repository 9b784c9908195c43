[package]
name = "wlan_monitor"
version = "0.1.0"
edition = "2021"
publish = false

[dependencies]
anyhow = "1"
chrono = "0.4"
state = "0.6"
tokio = { version = "1", features = ["macros", "rt-multi-thread", "sync", "time"] }
windows = { version = "0.48", features = ["Win32_Foundation", "Win32_NetworkManagement_WiFi"] }
