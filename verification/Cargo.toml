[package]
name = "secopy"
version = "0.1.0"
edition = "2021"
publish = false

[dependencies]
argon2 = "=0.5.3"
chacha20poly1305 = "=0.10.1"
base64 = "=0.22.1"
getrandom = "=0.3.4"
zeroize = "=1.9.1"
serde = { version = "=1.0.229", features = ["derive"] }
serde_json = "=1.0.154"
thiserror = "=2.0.21"
axum = "=0.8.9"
tokio = { version = "=1.54.1", features = ["macros", "rt-multi-thread", "net", "sync", "time"] }
redis = { version = "=1.8.1", features = ["tokio-comp"] }
async-trait = "=0.1.92"
async-stream = "=0.3.6"
futures-core = "=0.3.34"
tracing = "=0.1.44"
tracing-subscriber = "=0.3.23"
tower-http = { version = "=0.6.11", features = ["compression-gzip", "trace"] }
leptos = { version = "0.8", features = ["ssr"] }
leptos_axum = "0.8"
leptos_router = { version = "0.8", features = ["ssr"] }
