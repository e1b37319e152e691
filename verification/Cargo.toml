[package]
name = "commit"
version = "0.1.0"
edition = "2021"
publish = false

[dependencies]
serde_json = "=1.0.151"
reqwest = { version = "=0.12.28", default-features = false, features = ["blocking", "json", "rustls-tls"] }
clap = { version = "=4.6.7", features = ["derive"] }
dialoguer = "=0.12.0"
colored = "=3.1.1"
spinners = "=4.2.0"
clipboard = "=0.5.0"
