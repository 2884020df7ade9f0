[package]
name = "telemetry_report"
version = "0.1.0"
edition = "2021"
publish = false

[dependencies]
anyhow = "=1.0.104"
clap = { version = "=3.2.25", features = ["cargo"] }
env_logger = "=0.9.3"
k8s-openapi = { version = "=0.27.1", features = ["latest"] }
kube = "=3.1.0"
log = "=0.4.34"
reqwest = { version = "=0.12.28", default-features = false, features = ["json", "rustls-tls"] }
serde = { version = "=1.0.229", features = ["derive"] }
serde_json = "=1.0.154"
sha256 = { version = "=1.6.0", default-features = false }
snafu = "=0.7.5"
tokio = { version = "=1.54.1", features = ["macros", "rt-multi-thread", "time"] }
url = "=2.5.8"
