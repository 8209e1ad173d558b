[package]
name = "beatbank"
version = "0.1.0"
edition = "2021"
publish = false

[dependencies]
chrono = "=0.4.45"
lazy_static = "=1.5.1"
once_cell = "=1.21.4"
rodio = "=0.22.2"
rusqlite = { version = "=0.40.2", features = ["bundled"] }
serde = { version = "=1.0.229", features = ["derive"] }
serde_json = "=1.0.151"
symphonia = "=0.5.5"
