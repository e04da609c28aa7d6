[package]
name = "sovaehr"
version = "0.1.0"
edition = "2021"
publish = false

[dependencies]
jsonwebtoken = { version = "=11.1.0", features = ["rust_crypto"] }
serde = { version = "*", features = ["derive"] }
serde_json = "*"
tokio = { version = "*", features = ["macros", "rt-multi-thread"] }
poem = "*"
poem-openapi = "*"
reqwest = { version = "*", default-features = false, features = ["json"] }
secrecy = "*"
uuid = { version = "*", features = ["v4"] }
dotenvy = "*"
async-trait = "*"
