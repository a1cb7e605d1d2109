[package]
name = "workflow"
version = "0.1.0"
edition = "2021"
publish = false

[dependencies]
serde_json = "1"
serde = { version = "1", features = ["derive"] }
rhai = { version = "1", features = ["sync"] }
jsonwebtoken = "9"
bcrypt = "0.17"
aes-gcm = "0.10"
base64 = "0.22"
chrono = { version = "0.4", features = ["serde"] }
uuid = { version = "1", features = ["v4"] }
toml = "0.8"
clap = { version = "4", features = ["derive"] }
tokio = { version = "1", features = ["full"] }
axum = "0.8"
mongodb = "3"
apalis = "*"
apalis-redis = "*"
reqwest = { version = "0.12", default-features = false, features = ["json"] }
rmcp = { version = "*", features = ["server", "transport-streamable-http-server"] }
schemars = "1"
futures = "0.3"
anyhow = "1"
async-trait = "0.1"
tracing = "0.1"
