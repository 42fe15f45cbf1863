[package]
name = "polyshark"
version = "0.1.0"
edition = "2021"
publish = false

[dependencies]
hex = "0.4"
serde = { version = "1", features = ["derive"] }
serde_json = "1"
tokio = { version = "1", features = ["full"] }
reqwest = { version = "0.12", default-features = false, features = ["rustls-tls", "json"] }
warp = "0.3"
rand = "0.8"
rand_distr = "0.4"
colored = "2"
toml = "0.8"
futures-util = "0.3"
tokio-tungstenite = "*"
