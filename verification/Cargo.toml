[package]
name = "img_proxy"
version = "0.1.0"
edition = "2021"
publish = false

[dependencies]
quick_cache = "*"
image = "*"
webp = "*"
serde = { version = "*", features = ["derive"] }
serde_json = "*"
reqwest = { version = "*", features = ["json", "multipart"] }
salvo = "*"
anyhow = "*"
thiserror = "*"
time = "*"
tracing-subscriber = "*"
dotenvy = "*"
async-trait = "*"
