[package]
name = "acme_distributor"
version = "0.1.0"
edition = "2021"
publish = false

[dependencies]
glob-match = "=0.2.1"
serde_json = "=1.0.154"
sha2 = "=0.10.9"
hex = "=0.4.3"
ipnet = "=2.12.2"
chrono = "=0.4.45"
x509-parser = { version = "=0.16.0", features = ["verify"] }
rcgen = "=0.13.2"
serde = { version = "=1.0.229", features = ["derive"] }
serde_yaml = "=0.9.34"
clap = { version = "=4.6.7", features = ["derive"] }
tokio = { version = "=1.54.1", features = ["full"] }
reqwest = { version = "=0.12.28", default-features = false, features = ["json", "rustls-tls"] }
anyhow = "=1.0.104"
thiserror = "=1.0.69"
tracing = "=0.1.44"
tracing-subscriber = "=0.3.23"
async-trait = "=0.1.92"
rocket = { version = "=0.5.2", features = ["json"] }
diesel = { version = "=2.3.14", features = ["sqlite", "r2d2"] }
diesel_migrations = "=2.3.2"
os_pipe = "=1.2.3"
libc = "=0.2.191"
acme-lib = "=0.9.1"
