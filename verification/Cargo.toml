[package]
name = "tosca_controller"
version = "0.1.0"
edition = "2021"
publish = false

[dependencies]
axum = "=0.8.9"
embedded-hal = "=1.0.0"
embedded-hal-async = "=1.0.0"
hashbrown = "=0.15.5"
indexmap = "=2.14.2"
reqwest = { version = "=0.12.28", default-features = false, features = ["json"] }
rumqttc = { version = "=0.24.0", default-features = false }
serde = { version = "=1.0.229", features = ["derive"] }
serde_json = "=1.0.154"
tokio = { version = "=1.54.1", features = ["macros", "rt", "rt-multi-thread", "sync", "time"] }
tokio-util = "=0.7.20"
tracing = "=0.1.44"
windows-sys = { version = "=0.61.2", features = ["Win32_Foundation", "Win32_NetworkManagement_IpHelper", "Win32_NetworkManagement_Ndis", "Win32_Networking_WinSock"] }
