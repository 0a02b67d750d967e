[package]
name = "cargo_vitasdk"
version = "0.1.0"
edition = "2021"
publish = false

[dependencies]
cargo_metadata = "*"
serde_json = "1"
serde = { version = "1", features = ["derive"] }
serde_yaml = "*"
toml = "*"
syn = { version = "2", features = ["full", "visit-mut"] }
tokio = { version = "1", features = ["fs", "io-util", "process", "rt"] }
futures = "*"
eyre = "*"
camino = "*"
