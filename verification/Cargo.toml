[package]
name = "imgopt"
version = "0.1.0"
edition = "2021"
publish = false

[dependencies]
base64 = "0.22"
image = "0.25"
oxipng = { version = "9", default-features = false }
url = "2"
serde_json = "1"
serde = { version = "1", features = ["derive"] }
hyper = { version = "0.14", features = ["full"] }
tokio = { version = "1", features = ["full"] }
lambda_runtime = "*"
dotenv = "0.15"
