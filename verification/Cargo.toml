[package]
name = "img2color"
version = "0.1.0"
edition = "2021"
publish = false

[dependencies]
md5 = "0.7"
image = "0.24"
reqwest = { version = "0.11", default-features = false }
tokio = { version = "1", features = ["full"] }
mongodb = "2"
serde = { version = "1", features = ["derive"] }
serde_json = "1"
dotenv = "0.15"
vercel_runtime = "1"
