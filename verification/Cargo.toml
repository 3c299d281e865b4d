[package]
name = "devtools"
version = "0.1.0"
edition = "2021"
publish = false

[dependencies]
uuid = { version = "=1.29.0", features = ["v1", "v4", "v7"] }
rand = "=0.8.8"
chrono = "=0.4.45"
serde = { version = "=1.0.229", features = ["derive"] }
serde_json = "=1.0.154"
base64 = "=0.22.1"
url = "=2.5.8"
zbus = "=4.4.0"
tempfile = "=3.27.0"
wait-timeout = "0.2"
global-hotkey = "*"
revelo = "*"
