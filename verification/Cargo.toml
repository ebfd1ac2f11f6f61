[package]
name = "ncm_api"
version = "0.1.0"
edition = "2021"
publish = false

[dependencies]
md-5 = "0.10"
serde_json = "1"
thiserror = "1"
reqwest = { version = "0.12", default-features = false, features = ["json"] }
