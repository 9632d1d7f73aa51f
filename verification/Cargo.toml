[package]
name = "gargantua"
version = "0.1.0"
edition = "2021"
publish = false

[dependencies]
async-trait = "0.1"
axum = "0.6"
axum-server = { version = "0.5", features = ["tls-rustls"] }
dotenvy = "0.15"
http = "0.2"
httpdate = "1"
kdl = "4"
libsystemd = "*"
log = "0.4"
serde = { version = "1", features = ["derive"] }
serde_json = "1"
tide = { version = "0.16", default-features = false }
tokio = { version = "1", features = ["macros", "rt-multi-thread", "signal"] }
tower = "0.4"
tower-http = { version = "0.4", features = ["fs", "trace", "request-id", "util"] }
tracing = "0.1"
tracing-journald = "0.3"
tracing-subscriber = "0.3"
uuid = { version = "1", features = ["v4"] }
