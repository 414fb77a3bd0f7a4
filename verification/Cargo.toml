[package]
name = "woof"
version = "0.1.0"
edition = "2021"
publish = false

[dependencies]
webauthn-rs = { version = "=0.5.5", features = ["danger-credential-internals"] }
uuid = { version = "=1.27.0", features = ["v4"] }
serde_json = "=1.0.151"
serde = { version = "=1.0.229", features = ["derive"] }
axum = "=0.8.9"
tokio = { version = "=1.53.2", features = ["full"] }
tower = "=0.5.3"
tower-sessions = "=0.14.0"
axum-login = "=0.18.0"
async-trait = "=0.1.92"
clap = { version = "=4.6.7", features = ["derive", "env"] }
anyhow = "=1.0.104"
thiserror = "=1.0.69"
log = "=0.4.34"
headers = "=0.4.2"
http = "=1.5.0"

[dev-dependencies]
webauthn-rs-core = "=0.5.5"
webauthn-rs-proto = "=0.5.5"
