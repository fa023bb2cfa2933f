[package]
name = "docquery"
version = "0.1.0"
edition = "2021"
publish = false

[dependencies]
anyhow = "1"
async-trait = "0.1"
bb8 = "*"
bb8-postgres = { version = "*", features = ["with-serde_json-1"] }
serde = { version = "1", features = ["derive"] }
serde_json = { version = "1", features = ["preserve_order"] }
tokio-postgres = { version = "*", features = ["with-serde_json-1"] }
