[package]
name = "auth0_client"
version = "0.1.0"
edition = "2021"
publish = false

[dependencies]
alcoholic_jwt = "*"
async-trait = "0.1"
log = "0.4"
reqwest = { version = "0.11", features = ["json"] }
serde = { version = "1", features = ["derive"] }
serde_json = "1"

[dev-dependencies]
openssl = "0.10"
