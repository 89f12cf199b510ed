[package]
name = "ricq_session"
version = "0.1.0"
edition = "2021"
publish = false

[dependencies]
md5 = "*"
tokio = { version = "1", default-features = false, features = ["sync"] }
