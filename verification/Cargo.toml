[package]
name = "clock_panel"
version = "0.1.0"
edition = "2021"
publish = false

[dependencies]
anyhow = "1"
chrono = "0.4"
ds323x = "0.5"
esp-idf-svc = "0.48"
hd44780-driver = "0.4"
log = "0.4"
serde = { version = "1", features = ["derive"] }
serde_json = "1"
shared-bus = "0.3"
toml-cfg = "0.1"
