[package]
name = "por_oracle"
version = "0.1.0"
edition = "2021"
publish = false

[dependencies]
anyhow = "*"
aws-creds = "*"
aws-region = "*"
bao = "*"
blake3 = "*"
cid = "*"
dotenv = "*"
envconfig = "*"
futures = "*"
hex = "*"
http = "0.2"
ipfs-api = { version = "*", default-features = false, features = ["with-hyper"] }
lambda_runtime = "*"
lazy_static = "*"
rand = "*"
rust-s3 = "*"
serde = { version = "*", features = ["derive"] }
serde_json = "*"
tokio = { version = "*", features = ["macros", "rt-multi-thread"] }
tracing = "*"
tracing-subscriber = "*"
