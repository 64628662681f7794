[package]
name = "supergfxctl"
version = "5.2.7"
edition = "2021"
publish = false

[dependencies]
env_logger = "=0.11.11"
gumdrop = "=0.8.1"
log = "=0.4.34"
logind-zbus = "=5.3.2"
serde = { version = "=1.0.229", features = ["derive"] }
serde_json = "=1.0.154"
tokio = { version = "=1.54.1", features = ["macros", "rt-multi-thread", "sync", "time"] }
udev = "=0.9.3"
zbus = { version = "=5.19.0", features = ["tokio"] }
zvariant = "=5.15.1"
