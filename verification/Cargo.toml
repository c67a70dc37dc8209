[package]
name = "maileroo"
version = "0.1.0"
edition = "2021"
publish = false

[dependencies]
hmac = "=0.12.1"
sha2 = "=0.10.9"
base32 = "=0.5.1"
base64 = "=0.22.1"
chacha20poly1305 = "=0.10.1"
mail-parser = "=0.11.9"
regex = "=1.13.1"
aho-corasick = "=1.1.5"
ammonia = "=4.2.4"
uuid = { version = "=1.29.0", features = ["v4"] }
time = { version = "=0.3.55", features = ["formatting"] }
dashmap = "=6.2.1"
tokio = { version = "=1.54.1", features = ["full"] }
anyhow = "=1.0.104"
dotenvy = "=0.15.7"
tracing = "=0.1.44"
tracing-subscriber = "=0.3.23"
tempfile = "=3.27.0"
mime_guess = "2"
sqlx = { version = "0.8", default-features = false, features = ["runtime-tokio", "sqlite", "uuid", "time"] }
hickory-resolver = "0.25"
