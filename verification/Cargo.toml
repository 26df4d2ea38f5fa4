[package]
name = "raline"
version = "0.1.0"
edition = "2021"
publish = false

[dependencies]
ammonia = "=4.2.4"
anyhow = "=1.0.104"
axum-client-ip = "=0.6.1"
base16ct = { version = "=0.2.0", features = ["alloc"] }
comrak = { version = "=0.43.0", default-features = false, features = ["shortcodes"] }
jsonwebtoken = "=9.3.1"
md-5 = "=0.10.6"
rand = "=0.8.8"
regex = "=1.13.1"
serde = { version = "=1.0.229", features = ["derive"] }
serde-toml-merge = "=0.3.9"
serde_json = "=1.0.154"
serde_urlencoded = "=0.7.1"
serde_with = "=3.24.0"
spring = "=0.2.9"
spring-web = "=0.2.5"
tokio = { version = "=1.54.1", features = ["macros", "rt-multi-thread"] }
tracing = "=0.1.44"
uaparser = "=0.6.4"
validator = "=0.19.0"
