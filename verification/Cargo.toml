[package]
name = "utv_bot"
version = "0.1.0"
edition = "2021"
publish = false

[dependencies]
base64 = "*"
sled = "*"
serenity = "*"
tokio = { version = "*", features = ["macros", "rt-multi-thread"] }
