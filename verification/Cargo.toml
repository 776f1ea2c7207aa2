[package]
name = "chat_hub"
version = "0.1.0"
edition = "2021"
publish = false

[dependencies]
cap = "0.1"
chrono = { version = "0.4", features = ["serde"] }
dotenv_codegen = "0.15"
futures-util = { version = "0.3", features = ["sink"] }
jsonwebtoken = "8"
mobc = "0.8"
mobc-postgres = "0.8"
serde = { version = "1", features = ["derive"] }
serde_json = "1"
tokio = { version = "1", features = ["full"] }
tokio-postgres = { version = "0.7", features = ["with-chrono-0_4"] }
tokio-stream = "0.1"
validator = { version = "0.16", features = ["derive"] }
warp = "0.3"
