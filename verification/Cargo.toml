[package]
name = "hummingbird"
version = "0.1.0"
edition = "2021"
publish = false

[dependencies]
anyhow = "=1.0.104"
cntp_i18n = "=0.3.0"
image = "=0.25.10"
smallvec = "1"
sqlx = { version = "=0.8.6", default-features = false, features = ["sqlite", "runtime-tokio"] }
sysinfo = "=0.32.1"
tracing = "0.1"
