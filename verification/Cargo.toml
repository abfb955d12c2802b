[package]
name = "osc_obs_bridge"
version = "0.1.0"
edition = "2021"
publish = false

[dependencies]
anyhow = "=1.0.104"
rosc = "=0.11.4"
obws = { version = "=0.15.0", features = ["events"] }
tokio = { version = "=1.54.1", features = ["full"] }
futures-util = "=0.3.34"
mdns-sd = "=0.21.7"
serde = { version = "=1.0.229", features = ["derive"] }
serde_json = "=1.0.154"
tracing = "=0.1.44"
tracing-appender = "=0.2.5"
tracing-subscriber = "=0.3.23"
tray-icon = "=0.26.1"
muda = "=0.21.2"
open = "=5.4.5"
winapi = { version = "=0.3.9", features = ["winuser"] }
