[package]
name = "deno_volt"
version = "0.1.0"
edition = "2021"
publish = false

[dependencies]
zip = { version = "=8.6.0", default-features = false, features = ["deflate"] }
serde_json = "=1.0.151"
lapce-plugin = "=0.1.2"
url = "*"
anyhow = "=1.0.104"
