[package]
name = "virtualos"
version = "0.1.0"
edition = "2021"
publish = false

[dependencies]
anyhow = "=1.0.104"
aya = "=0.13.1"
aya-log = "=0.2.1"
axum = "=0.8.9"
clap = { version = "=4.6.7", features = ["derive"] }
ctrlc = "=3.5.2"
flate2 = "=1.1.10"
hex = "=0.4.3"
kvm-bindings = "=0.14.2"
kvm-ioctls = "=0.25.1"
lazy_static = "=1.5.1"
linux-loader = { version = "=0.14.0", features = ["bzimage", "elf"] }
nix = { version = "=0.31.3", features = ["mount", "sched", "signal", "process", "fs", "hostname"] }
prometheus = "=0.14.0"
reqwest = { version = "=0.12.28", default-features = false, features = ["blocking", "json", "rustls-tls"] }
serde = { version = "=1.0.229", features = ["derive"] }
serde_json = "=1.0.154"
sha2 = "=0.11.1"
tar = "=0.4.46"
tempfile = "=3.27.0"
thiserror = "=1.0.69"
tokio = { version = "=1.54.1", features = ["rt-multi-thread", "macros", "net", "signal"] }
tracing = "=0.1.44"
tracing-appender = "=0.2.5"
tracing-subscriber = { version = "=0.3.23", features = ["fmt", "json", "time"] }
uuid = { version = "=1.29.0", features = ["v4"] }
vm-memory = { version = "=0.18.0", features = ["backend-mmap"] }
