[package]
name = "iface-ddns"
version = "0.1.0"
edition = "2021"
publish = false

[dependencies]
aws-config = { version = "1", features = ["behavior-version-latest"] }
aws-credential-types = "1"
aws-sdk-route53 = "1"
backon = "1"
clap = { version = "4", features = ["derive"] }
if-addrs = "0.13"
reqwest = { version = "0.12", default-features = false, features = ["rustls-tls"] }
serde = { version = "1", features = ["derive"] }
thiserror = "2"
tokio = { version = "1", features = ["macros", "rt-multi-thread", "time"] }
toml = "0.8"
tracing = "0.1"
tracing-journald = "0.3"
tracing-subscriber = { version = "0.3", features = ["env-filter", "fmt"] }
