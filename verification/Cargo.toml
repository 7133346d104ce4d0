[package]
name = "easy_apply"
version = "0.1.0"
edition = "2021"
publish = false

[dependencies]
base64 = "0.13"
serde = { version = "1", features = ["derive"] }
serde_json = "1"
serde_urlencoded = "0.7"
thirtyfour = "0.31"
tokio = { version = "1", features = ["macros", "rt-multi-thread", "time"] }
