[package]
name = "forge_tool"
version = "0.1.0"
edition = "2021"
publish = false

[dependencies]
async-trait = "0.1"
schemars = "*"
serde = { version = "1", features = ["derive"] }
tokio = { version = "1", features = ["fs", "rt"] }

[dev-dependencies]
tempfile = "3"
