[package]
name = "auth_backend"
version = "0.1.0"
edition = "2021"
publish = false

[dependencies]
oauth2 = { version = "=4.4.2", default-features = false, features = ["reqwest"] }
cuid = "=1.3.3"
reqwest = { version = "=0.11.27", default-features = false, features = ["json"] }
axum = "=0.8.9"
axum-login = "=0.18.0"
tokio = { version = "=1.53.2", features = ["rt-multi-thread", "macros", "net"] }
serde = { version = "=1.0.229", features = ["derive"] }
dotenvy = "=0.15.7"
thiserror = "=1.0.69"
log = "=0.4.34"
simple_logger = "=4.3.3"
time = "=0.3.55"
async-trait = "=0.1.92"
tower-sessions = { version = "0.14", features = ["memory-store"] }
