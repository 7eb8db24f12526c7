[package]
name = "relay_controller"
version = "0.1.0"
edition = "2021"
publish = false

[dependencies]
tokio = { version = "=1.54.1", features = ["net", "rt", "time", "macros"] }
tokio-util = { version = "=0.7.20", features = ["codec"] }
futures = "=0.3.34"
log = "=0.4.34"
thiserror = "=2.0.21"
heapless = "=0.9.3"
embedded-svc = "=0.29.0"
esp-idf-svc = "=0.53.0"
esp-idf-hal = "=0.47.0"
axum = "*"
serde = { version = "1", features = ["derive"] }
serde_json = "1"
