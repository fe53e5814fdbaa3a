[package]
name = "polkabind"
version = "0.1.0"
edition = "2021"
publish = false

[dependencies]
subxt = "*"
subxt-signer = "*"
tokio = { version = "*", features = ["rt", "rt-multi-thread", "time"] }
serde = { version = "*", features = ["derive"] }
thiserror = "*"

[dev-dependencies]
hex = "*"
