[package]
name = "bridge_relayer"
version = "0.1.0"
edition = "2021"
publish = false

[dependencies]
hex = "0.4"
serde = { version = "1", features = ["derive"] }
serde_json = "1"
eyre = "0.6"
tokio = { version = "1", features = ["macros", "rt-multi-thread"] }
ethers = "2"
ethbridge-structs = "0.24"
