[package]
name = "zundamon_vrc"
version = "0.1.0"
edition = "2021"
publish = false

[dependencies]
anyhow = "=1.0.104"
url = "=2.5.8"
shell-words = "=1.1.1"
rosc = "=0.11.4"
serde = { version = "=1.0.229", features = ["derive"] }
serde_json = "=1.0.154"
toml = "=1.1.8"
directories = "=6.0.0"
reqwest = { version = "=0.13.5", default-features = false, features = ["json"] }
async-trait = "=0.1.92"
tracing = "=0.1.44"
rodio = "=0.20.1"
tokio = { version = "=1.54.1", features = ["rt-multi-thread", "macros"] }
