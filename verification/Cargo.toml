[package]
name = "cachified"
version = "0.1.0"
edition = "2021"
publish = false

[dependencies]
async-trait = "0.1"
moka = { version = "0.12", features = ["future"] }
redis = { version = "0.25", features = ["tokio-comp"] }
serde = { version = "1", features = ["derive"] }
serde_json = "1"
thiserror = "1"
tokio = { version = "1", features = ["rt", "rt-multi-thread", "macros", "time"] }
