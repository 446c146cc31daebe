[package]
name = "cloudinary_upload"
version = "0.1.0"
edition = "2021"
publish = false

[dependencies]
ring = "=0.17.14"
data-encoding = "=2.11.1"
awc = { version = "=3.8.2", default-features = false }
async-graphql = { version = "=7.2.1", features = ["unblock"] }
futures-util = "=0.3.34"
tokio-util = { version = "=0.7.19", features = ["codec", "compat"] }
serde = { version = "=1.0.229", features = ["derive"] }
