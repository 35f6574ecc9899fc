[package]
name = "hcrelay"
version = "0.1.0"
edition = "2021"
publish = false

[dependencies]
sha2 = "*"
hex = "*"
base64 = "*"
regex = "*"
serde = { version = "*", features = ["derive"] }
serde_json = "*"
csv = "*"
reqwest = { version = "*", default-features = false, features = ["json"] }
tokio = { version = "*", features = ["rt-multi-thread", "macros"] }
dotenv = "*"
